//! Small verified library of introductory examples: a rectangle type with
//! area, perimeter and containment, a user record built by field-wise
//! construction, and string helpers that pass ownership around.

pub mod ownership;
pub mod rect;
pub mod user;
