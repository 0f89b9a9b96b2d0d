//! The example commands: the secondary window and the random-number event.

use vstd::prelude::*;
use vstd::string::*;

verus! {

/// Smallest number that the random-number event may carry.
pub const RAND_NUM_MIN: i32 = 1;

/// Largest number that the random-number event may carry.
pub const RAND_NUM_MAX: i32 = 100;

/// Payload of the random-number event: a display name and the number drawn.
pub struct TestData {
    pub name: String,
    pub rand_num: i32,
}

/// What a [`TestData`] stands for.
pub struct TestDataView {
    pub name: Seq<char>,
    pub rand_num: int,
}

impl View for TestData {
    type V = TestDataView;

    open spec fn view(&self) -> TestDataView {
        TestDataView { name: self.name@, rand_num: self.rand_num as int }
    }
}

impl TestData {
    /// The number lies in the range that the event promises its listeners.
    pub open spec fn wf(&self) -> bool {
        RAND_NUM_MIN <= self.rand_num <= RAND_NUM_MAX
    }
}

impl Clone for TestData {
    fn clone(&self) -> (copy: Self)
        ensures
            copy == *self,
    {
        TestData { name: self.name.clone(), rand_num: self.rand_num }
    }
}

/// A window for the GUI framework to open: the label it is known by, the
/// page of the application it shows, its title and its size in logical
/// pixels.
pub struct WindowConfig {
    pub label: String,
    pub path: String,
    pub title: String,
    pub width: u32,
    pub height: u32,
}

/// What a [`WindowConfig`] stands for.
pub struct WindowConfigView {
    pub label: Seq<char>,
    pub path: Seq<char>,
    pub title: Seq<char>,
    pub width: int,
    pub height: int,
}

impl View for WindowConfig {
    type V = WindowConfigView;

    open spec fn view(&self) -> WindowConfigView {
        WindowConfigView {
            label: self.label@,
            path: self.path@,
            title: self.title@,
            width: self.width as int,
            height: self.height as int,
        }
    }
}

/// The examples window: labelled "examples", showing the page "/Examples"
/// under the title "Examples", 600 by 450 logical pixels.
pub open spec fn example_window() -> WindowConfigView {
    WindowConfigView {
        label: "examples"@,
        path: "/Examples"@,
        title: "Examples"@,
        width: 600,
        height: 450,
    }
}

/// Describes the one window that the command opens.
pub fn open_example_window() -> (window: WindowConfig)
    ensures
        window@ == example_window(),
{
    WindowConfig {
        label: String::from_str("examples"),
        path: String::from_str("/Examples"),
        title: String::from_str("Examples"),
        width: 600,
        height: 450,
    }
}

/// Name under which the random-number event is published and listened for.
pub const RANDOM_NUMBER_EVENT: &'static str = "random-number";

/// An event to publish to the front end: its name and what it carries.
pub struct Event {
    pub name: String,
    pub payload: TestData,
}

/// What an [`Event`] stands for.
pub struct EventView {
    pub name: Seq<char>,
    pub payload: TestDataView,
}

impl View for Event {
    type V = EventView;

    open spec fn view(&self) -> EventView {
        EventView { name: self.name@, payload: self.payload@ }
    }
}

/// The random-number event that carries `rand_num`: published under
/// [`RANDOM_NUMBER_EVENT`], in the name of "Rust".
pub open spec fn random_number_event_view(rand_num: int) -> EventView {
    EventView {
        name: RANDOM_NUMBER_EVENT@,
        payload: TestDataView { name: "Rust"@, rand_num },
    }
}

/// `rand::rngs::ThreadRng`, the handle to a thread's random number
/// generator. It is carried from where it is obtained to where a number is
/// drawn; nothing inside it is visible here.
#[verifier::external_type_specification]
#[verifier::external_body]
pub struct ExThreadRng(rand::rngs::ThreadRng);

/// `rand::thread_rng` hands out the calling thread's generator, which the
/// system seeds on first use; it panics only where the system has no entropy
/// to give. Nothing is claimed of the handle.
pub assume_specification[ rand::thread_rng ]() -> (rng: rand::rngs::ThreadRng);

/// `rand::Rng::gen_range` on the half-open range `low..high` of `i32`.
/// It refuses an empty range, so `low < high` is asked for; what it draws is
/// at least `low` and below `high`. Which number comes is left open: two
/// calls with the same bounds need not agree. It samples until a sample is
/// accepted, which ends with probability one.
#[verifier::external_body]
fn gen_range(rng: &mut rand::rngs::ThreadRng, low: i32, high: i32) -> (drawn: i32)
    requires
        low < high,
    ensures
        low <= drawn < high,
{
    rand::Rng::gen_range(rng, low..high)
}

/// Builds the random-number event around a number that was drawn.
pub fn random_number_event(rand_num: i32) -> (event: Event)
    requires
        RAND_NUM_MIN <= rand_num <= RAND_NUM_MAX,
    ensures
        event@ == random_number_event_view(rand_num as int),
        event.payload.wf(),
{
    Event {
        name: String::from_str(RANDOM_NUMBER_EVENT),
        payload: TestData { name: String::from_str("Rust"), rand_num },
    }
}

/// Draws a number from [`RAND_NUM_MIN`] to [`RAND_NUM_MAX`], both included,
/// and returns the event that publishes it.
pub fn emit_random_number() -> (event: Event)
    ensures
        event.payload.wf(),
        event@ == random_number_event_view(event.payload.rand_num as int),
{
    let mut rng = rand::thread_rng();
    let rand_num: i32 = gen_range(&mut rng, RAND_NUM_MIN, RAND_NUM_MAX + 1);
    random_number_event(rand_num)
}

} // verus!
