//! Meeting-room availability of the Calgary Central Library, read off its
//! booking page: rooms told apart by their titles, capacities inferred from
//! descriptions, and open half hours kept as slots of a fixed daily grid.
//!
//! The library does not drive a browser. An `Extraction` names one command
//! after another for whoever does, takes what came of each, and ends with
//! the rooms of the page or with the error that stopped it.

pub mod availability;
pub mod booking;
pub mod capacity;
pub mod driver;
pub mod extraction;
pub mod page;
pub mod room;
pub mod search_button;
pub mod text;
pub mod time_slot;

pub use availability::Availability;
pub use booking::Date;
pub use driver::{Command, ElementId, Reply, Selector};
pub use extraction::{AvailableRoomsError, Extraction, Step};
pub use room::{KnownRoom, Room, RoomChoice};
pub use search_button::{ButtonSearch, FindSearchButtonError, SearchStep};
pub use time_slot::TimeSlot;
