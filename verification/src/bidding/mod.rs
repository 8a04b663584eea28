mod bid;
mod call;
mod declaration_storage;
mod auction_field;
pub mod parser;

pub use bid::{Bid, HALF_TRICKS, MAX_BID_NUMBER, MIN_BID_NUMBER, bid_above, bid_order_irreflexive, bid_order_total, bid_order_transitive};
pub use call::{Call, CallEntry, Doubling};
pub use declaration_storage::{DeclarationStorage, GeneralDeclarationStorage};
pub use auction_field::{AuctionStack, AuctionStatus, auction_bid_never_decreases, auction_call_keeps_wf, auction_declarer_in_bidding_partnership, auction_doubling_by_the_right_partnership, auction_finishes_after_three_passes, auction_turn_order, axis_consistent, next_side, trailing_passes};
