use vstd::prelude::*;

verus! {

/// The sole domain entity: one inventory record, keyed by `sku`.
///
/// `expiry` is a Unix epoch timestamp in milliseconds; a record counts as
/// valid while `expiry` lies strictly in the future, judged at read time.
/// `currency_affix_side` says on which side of the amount the currency
/// symbol is printed (`"left"` as in `$10`, `"right"` as in `10 Dinar`).
#[derive(Debug)]
pub struct Inventory {
    pub sku: String,
    pub title: String,
    pub description: u64,
    pub quantity: u64,
    pub expiry: u128,
    pub currency_code: String,
    pub currency_symbol: String,
    pub currency_affix_side: String,
    pub amount: u64,
}

/// The affix side a record receives when the stored form carries none.
pub fn default_currency_affix_side() -> (r: String)
    ensures
        r@ == "left"@,
{
    String::from_str("left")
}

/// Two records carry the same content: every field agrees, strings by
/// their character sequences.
pub open spec fn records_agree(a: Inventory, b: Inventory) -> bool {
    &&& a.sku@ == b.sku@
    &&& a.title@ == b.title@
    &&& a.description == b.description
    &&& a.quantity == b.quantity
    &&& a.expiry == b.expiry
    &&& a.currency_code@ == b.currency_code@
    &&& a.currency_symbol@ == b.currency_symbol@
    &&& a.currency_affix_side@ == b.currency_affix_side@
    &&& a.amount == b.amount
}

/// A record whose every field holds its zero value: empty strings and
/// zero numbers.  This is the shape a key-only echo starts from.
pub open spec fn is_zero_record(r: Inventory) -> bool {
    &&& r.sku@ == Seq::<char>::empty()
    &&& r.title@ == Seq::<char>::empty()
    &&& r.description == 0
    &&& r.quantity == 0
    &&& r.expiry == 0
    &&& r.currency_code@ == Seq::<char>::empty()
    &&& r.currency_symbol@ == Seq::<char>::empty()
    &&& r.currency_affix_side@ == Seq::<char>::empty()
    &&& r.amount == 0
}

/// A record that reads as the key `sku` and nothing else: every other
/// field holds its zero value.
pub open spec fn is_key_only_record(r: Inventory, sku: Seq<char>) -> bool {
    &&& r.sku@ == sku
    &&& r.title@ == Seq::<char>::empty()
    &&& r.description == 0
    &&& r.quantity == 0
    &&& r.expiry == 0
    &&& r.currency_code@ == Seq::<char>::empty()
    &&& r.currency_symbol@ == Seq::<char>::empty()
    &&& r.currency_affix_side@ == Seq::<char>::empty()
    &&& r.amount == 0
}

impl Inventory {
    /// A record that holds only an identifying key; every other field is
    /// zero-valued.  The delete path echoes such a record back.
    pub fn key_only(sku: String) -> (r: Inventory)
        ensures
            r.sku == sku,
            r.title@ == Seq::<char>::empty(),
            r.description == 0,
            r.quantity == 0,
            r.expiry == 0,
            r.currency_code@ == Seq::<char>::empty(),
            r.currency_symbol@ == Seq::<char>::empty(),
            r.currency_affix_side@ == Seq::<char>::empty(),
            r.amount == 0,
    {
        Inventory {
            sku,
            title: String::new(),
            description: 0,
            quantity: 0,
            expiry: 0,
            currency_code: String::new(),
            currency_symbol: String::new(),
            currency_affix_side: String::new(),
            amount: 0,
        }
    }
}

impl Clone for Inventory {
    fn clone(&self) -> (r: Self)
        ensures
            r == *self,
    {
        Inventory {
            sku: self.sku.clone(),
            title: self.title.clone(),
            description: self.description,
            quantity: self.quantity,
            expiry: self.expiry,
            currency_code: self.currency_code.clone(),
            currency_symbol: self.currency_symbol.clone(),
            currency_affix_side: self.currency_affix_side.clone(),
            amount: self.amount,
        }
    }
}

impl Default for Inventory {
    fn default() -> (r: Self)
        ensures
            is_zero_record(r),
    {
        Inventory::key_only(String::new())
    }
}

impl PartialEq for Inventory {
    fn eq(&self, other: &Self) -> (r: bool) {
        self.sku == other.sku && self.title == other.title
            && self.description == other.description && self.quantity == other.quantity
            && self.expiry == other.expiry && self.currency_code == other.currency_code
            && self.currency_symbol == other.currency_symbol
            && self.currency_affix_side == other.currency_affix_side
            && self.amount == other.amount
    }
}

impl vstd::std_specs::cmp::PartialEqSpecImpl for Inventory {
    open spec fn obeys_eq_spec() -> bool {
        true
    }

    open spec fn eq_spec(&self, other: &Self) -> bool {
        records_agree(*self, *other)
    }
}

} // verus!
