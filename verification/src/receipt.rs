//! The receipt data model: an immutable snapshot of one order, plus the
//! store profile whose identity lines head every receipt.

use vstd::prelude::*;

verus! {

/// One serviced item on an order.
///
/// Monetary amounts are whole currency units. The weight is kept in tenths
/// of a kilogram so that the common one-decimal weights are exact. The
/// subtotal is supplied by the caller and is not recomputed here.
pub struct ReceiptItem {
    /// Human-readable service label.
    pub service: String,
    /// Quantity in tenths of a kilogram.
    pub weight_tenths: u64,
    /// Price per kilogram, whole currency units.
    pub price: i64,
    /// Precomputed weight times price, whole currency units.
    pub subtotal: i64,
}

/// The full receipt to render: header fields and the ordered line items.
pub struct ReceiptData {
    /// Order identifier; sanitized before any use in a file name.
    pub order_number: String,
    /// Pre-formatted order date; rendered verbatim.
    pub date: String,
    /// Customer free text.
    pub customer_name: String,
    /// Line items in print order; may be empty.
    pub items: Vec<ReceiptItem>,
    /// Grand total, whole currency units; not cross-checked against the items.
    pub total: i64,
    /// Free-text completion estimate shown in the footer.
    pub estimated_completion: String,
}

/// The store identity printed in the receipt header, injected into the
/// renderers rather than compiled in.
pub struct StoreProfile {
    pub name: String,
    pub address: String,
    pub phone: String,
}

impl StoreProfile {
    /// Each identity line fits the 40-column layout with at least one column
    /// of centering margin on either side.
    pub open spec fn wf(self) -> bool {
        self.name@.len() <= 38 && self.address@.len() <= 38 && self.phone@.len() <= 38
    }
}

impl Default for StoreProfile {
    /// The store this application ships for.
    fn default() -> (r: StoreProfile)
        ensures
            r.name@ == "MONIC LAUNDRY"@,
            r.address@ == "Jl. Laundry No. 123"@,
            r.phone@ == "Telp: 021-12345678"@,
            r.wf(),
    {
        let r = StoreProfile {
            name: String::from_str("MONIC LAUNDRY"),
            address: String::from_str("Jl. Laundry No. 123"),
            phone: String::from_str("Telp: 021-12345678"),
        };
        proof {
            reveal_strlit("MONIC LAUNDRY");
            reveal_strlit("Jl. Laundry No. 123");
            reveal_strlit("Telp: 021-12345678");
        }
        r
    }
}

} // verus!
