//! Item catalogue logic: turning client submissions into stored documents,
//! reading category names, composing search suggestions and deciding the
//! replies of the item endpoints and the index administration steps.
pub mod text;
pub mod types;
pub mod routes;
pub mod admin;
pub mod constants;
pub mod generate;
