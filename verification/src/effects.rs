//! What an operation asks of the host around the collection: a payment to
//! settle and a notification to publish.

use crate::types::{Address, Id};
use vstd::prelude::*;

verus! {

/// What a [`Payment`] is in contracts.
pub struct PaymentView {
    pub asset: Id,
    pub from: Id,
    pub to: Id,
    pub amount: int,
}

/// A transfer of the payment asset that a mint is conditional on.
///
/// The host settles it in one transfer; if that fails the mint did not
/// happen and the collection as it was before the call stands.
#[derive(Debug, PartialEq, Eq)]
pub struct Payment {
    /// The asset to move.
    pub asset: Address,
    /// Who pays.
    pub from: Address,
    /// Who is paid.
    pub to: Address,
    /// How much, in the asset's smallest parts.
    pub amount: i128,
}

impl View for Payment {
    type V = PaymentView;

    open spec fn view(&self) -> PaymentView {
        PaymentView {
            asset: self.asset@,
            from: self.from@,
            to: self.to@,
            amount: self.amount as int,
        }
    }
}

/// The payment of an optional order.
pub open spec fn payment_view(p: Option<Payment>) -> Option<PaymentView> {
    match p {
        Some(order) => Some(order@),
        None => None,
    }
}

/// What an [`Event`] is in contracts.
pub enum EventView {
    Initialized,
    Hello,
    Mint { owner: Id, token_id: u32 },
    BulkMint { owner: Id, tokens: Seq<(u32, Seq<char>)> },
    Transfer { token_id: u32, to: Id },
    Freeze,
    TokenUpdated { token_id: u32, token_uri: Seq<char> },
    CollectionUpdated,
    Upgraded { hash: Seq<u8> },
}

/// A notification, published once the operation that returned it has been
/// committed.
#[derive(Debug, PartialEq, Eq)]
pub enum Event {
    /// The collection was initialized.
    Initialized,
    /// A greeting.
    Hello,
    /// One token was minted.
    Mint { owner: Address, token_id: u32 },
    /// Several tokens were minted: their ids and metadata locations.
    BulkMint { owner: Address, tokens: Vec<(u32, String)> },
    /// A token changed hands.
    Transfer { token_id: u32, to: Address },
    /// The collection was frozen.
    Freeze,
    /// A token's metadata location was replaced.
    TokenUpdated { token_id: u32, token_uri: String },
    /// The collection's configuration was replaced.
    CollectionUpdated,
    /// The executable code is to be replaced by the code with this hash.
    Upgraded { hash: [u8; 32] },
}

/// The ids and texts of a list of minted tokens.
pub open spec fn minted_view(v: Seq<(u32, String)>) -> Seq<(u32, Seq<char>)> {
    Seq::new(v.len(), |i: int| (v[i].0, v[i].1@))
}

impl View for Event {
    type V = EventView;

    open spec fn view(&self) -> EventView {
        match self {
            Event::Initialized => EventView::Initialized,
            Event::Hello => EventView::Hello,
            Event::Mint { owner, token_id } => EventView::Mint {
                owner: owner@,
                token_id: *token_id,
            },
            Event::BulkMint { owner, tokens } => EventView::BulkMint {
                owner: owner@,
                tokens: minted_view(tokens@),
            },
            Event::Transfer { token_id, to } => EventView::Transfer {
                token_id: *token_id,
                to: to@,
            },
            Event::Freeze => EventView::Freeze,
            Event::TokenUpdated { token_id, token_uri } => EventView::TokenUpdated {
                token_id: *token_id,
                token_uri: token_uri@,
            },
            Event::CollectionUpdated => EventView::CollectionUpdated,
            Event::Upgraded { hash } => EventView::Upgraded { hash: hash@ },
        }
    }
}

/// What a [`Receipt`] is in contracts.
pub struct ReceiptView {
    pub payment: Option<PaymentView>,
    pub event: EventView,
}

/// The outcome of a mint: the payment it is conditional on, if any, and the
/// notification to publish.
#[derive(Debug, PartialEq, Eq)]
pub struct Receipt {
    pub payment: Option<Payment>,
    pub event: Event,
}

impl View for Receipt {
    type V = ReceiptView;

    open spec fn view(&self) -> ReceiptView {
        ReceiptView { payment: payment_view(self.payment), event: self.event@ }
    }
}

} // verus!
