//! Queue-ticket management core: ticket lifecycle and queue-position engine,
//! admin-access guard, and a scannable-code encoder for guest links.

use vstd::prelude::*;

pub mod codec;
pub mod engine;
pub mod guard;
pub mod laws;
pub mod store;
pub mod text;
pub mod ticket;

pub use codec::encode_qr_svg;
pub use codec::to_svg_string;
pub use engine::guest_url;
pub use engine::id_string;
pub use guard::auth_challenge;
pub use guard::check_request;
pub use guard::GuardConfig;
pub use guard::GuardOutcome;
pub use guard::Method;
pub use store::TicketStore;
pub use ticket::Error;
pub use ticket::Status;
pub use ticket::Ticket;
pub use ticket::TicketId;

verus! {

/// The largest ticket number a store may hold; the next number past it wraps to 1.
pub const MAX_NUMBER: u32 = 999;

} // verus!
