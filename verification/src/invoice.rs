//! Invoice identifiers.
//!
//! A funds transfer carries an invoice identifier correlating the payment
//! with an invoice. No invoice negotiation is modelled here: every payment
//! carries the trivial, all-zero invoice identifier.

use vstd::prelude::*;

verus! {

/// Length in bytes of an invoice identifier.
pub const INVOICE_ID_LEN: usize = 32;

/// An identifier correlating a payment to an invoice.
#[derive(Clone, Debug, PartialEq, Eq)]
pub struct InvoiceId {
    pub bytes: Vec<u8>,
}

impl View for InvoiceId {
    type V = Seq<u8>;

    open spec fn view(&self) -> Seq<u8> {
        self.bytes@
    }
}

/// The all-zero invoice identifier.
pub open spec fn trivial_invoice_seq() -> Seq<u8> {
    Seq::new(INVOICE_ID_LEN as nat, |i: int| 0u8)
}

impl InvoiceId {
    /// The trivial invoice identifier: `INVOICE_ID_LEN` zero bytes.
    pub fn trivial() -> (r: InvoiceId)
        ensures
            r@ == trivial_invoice_seq(),
    {
        let mut bytes: Vec<u8> = Vec::new();
        let mut i: usize = 0;
        while i < INVOICE_ID_LEN
            invariant
                i <= INVOICE_ID_LEN,
                bytes@.len() == i,
                forall|j: int| 0 <= j < i ==> bytes@[j] == 0u8,
            decreases INVOICE_ID_LEN - i,
        {
            bytes.push(0u8);
            i += 1;
        }
        proof {
            assert(bytes@ =~= trivial_invoice_seq());
        }
        InvoiceId { bytes }
    }
}

} // verus!
