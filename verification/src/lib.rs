//! Decision logic of a business-profile backend: the media codec, the
//! object-storage requests, the profile-update orchestration, the session
//! guard and the replies of the record handlers, each with a proved contract.

pub mod customers;
pub mod media;
pub mod number;
pub mod order;
pub mod reply;
pub mod router;
pub mod secrets;
pub mod storage;
pub mod text;
pub mod user;
