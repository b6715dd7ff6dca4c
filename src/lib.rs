use vstd::prelude::*;

pub mod client;
pub mod encoding;
pub mod scope;
pub mod secret;
pub mod text;

pub use client::{AuthorizedClient, UnauthorizedClient};
pub use scope::{BoxScope, Scope};
pub use secret::{ClientSecret, WebClientSecret};

verus! {

} // verus!
