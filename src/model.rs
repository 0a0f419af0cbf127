//! The document model: meets, sessions, events, clubs, athletes and entries.

pub mod age_date;
pub mod age_date_type;
pub mod age_group;
pub mod athlete;
pub mod calculate;
pub mod club;
pub mod constructor;
pub mod contact;
pub mod course;
pub mod entry;
pub mod event;
pub mod facility;
pub mod fee;
pub mod gender;
pub mod lenex;
pub mod meet;
pub mod point_table;
pub mod pool;
pub mod qualify;
pub mod round;
pub mod session;
pub mod stroke;
pub mod swimstyle;
pub mod timing;

pub use age_date::AgeDate;
pub use age_date_type::AgeDateType;
pub use age_group::AgeGroup;
pub use athlete::Athlete;
pub use calculate::Calculate;
pub use club::Club;
pub use constructor::Constructor;
pub use contact::Contact;
pub use course::Course;
pub use entry::Entry;
pub use event::Event;
pub use facility::Facility;
pub use fee::Fee;
pub use gender::Gender;
pub use lenex::Lenex;
pub use meet::Meet;
pub use point_table::PointTable;
pub use pool::Pool;
pub use qualify::Qualify;
pub use round::Round;
pub use session::Session;
pub use stroke::Stroke;
pub use swimstyle::SwimStyle;
pub use timing::Timing;
