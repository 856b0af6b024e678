//! The record store adapter's computing half.
//!
//! The persistent key/value store holds a record as a map of named
//! attributes, each a string-typed or number-typed scalar; numbers travel
//! as decimal strings.  This module translates between that store-native
//! shape and the domain record, builds the write, delete and query
//! requests, and decides each operation's result from what the store
//! returned.  The network call itself happens outside and hands these
//! functions plain values.

use vstd::prelude::*;

use crate::digits::all_dec_digits;
use crate::digits::dec_digits;
use crate::digits::dec_val;
use crate::digits::lemma_dec_digits_spec;
use crate::digits::parse_u128_decimal;
use crate::digits::parse_u64_decimal;
use crate::digits::u128_to_decimal;
use crate::digits::u64_to_decimal;
use crate::errors::PaymentErr;
use crate::inventory::is_valid_at;
use crate::models::default_currency_affix_side;
use crate::models::is_key_only_record;
use crate::models::is_zero_record;
use crate::models::records_agree;
use crate::models::Inventory;

verus! {

/// One store attribute: a string-typed or a number-typed scalar.  A
/// number is carried as its decimal numeral.
#[derive(Debug)]
pub enum StoreAttr {
    S(String),
    N(String),
}

impl Clone for StoreAttr {
    fn clone(&self) -> (r: Self)
        ensures
            r == *self,
    {
        match self {
            StoreAttr::S(t) => StoreAttr::S(t.clone()),
            StoreAttr::N(t) => StoreAttr::N(t.clone()),
        }
    }
}

/// A stored item: the attributes one table entry may carry.  Any of them
/// may be absent — the store accepts partially-formed records.  `sku_id`
/// is the numeric partition key a write adds beside the record's own
/// fields; reads ignore it.
#[derive(Debug)]
pub struct StoreItem {
    pub sku: Option<StoreAttr>,
    pub title: Option<StoreAttr>,
    pub description: Option<StoreAttr>,
    pub quantity: Option<StoreAttr>,
    pub expiry: Option<StoreAttr>,
    pub currency_code: Option<StoreAttr>,
    pub currency_symbol: Option<StoreAttr>,
    pub currency_affix_side: Option<StoreAttr>,
    pub amount: Option<StoreAttr>,
    pub sku_id: Option<StoreAttr>,
}

impl Clone for StoreItem {
    fn clone(&self) -> (r: Self)
        ensures
            r == *self,
    {
        StoreItem {
            sku: self.sku.clone(),
            title: self.title.clone(),
            description: self.description.clone(),
            quantity: self.quantity.clone(),
            expiry: self.expiry.clone(),
            currency_code: self.currency_code.clone(),
            currency_symbol: self.currency_symbol.clone(),
            currency_affix_side: self.currency_affix_side.clone(),
            amount: self.amount.clone(),
            sku_id: self.sku_id.clone(),
        }
    }
}

/// A full-overwrite write request: the entry at the partition key is
/// replaced by `item`.
#[derive(Debug)]
pub struct PutInput {
    pub table_name: String,
    pub item: StoreItem,
}

/// A delete request: it carries only the partition key, never a full
/// record.
#[derive(Debug)]
pub struct DeleteInput {
    pub table_name: String,
    pub key_name: String,
    pub key_value: StoreAttr,
}

/// A secondary-index query: all items whose indexed attribute equals the
/// key value.
#[derive(Debug)]
pub struct QueryRequest {
    pub table_name: String,
    pub index_name: String,
    pub key_name: String,
    pub key_value: StoreAttr,
}

/// What came back from a query: the matching rows, or a single
/// store-unavailable outcome for any communication failure.
#[derive(Debug)]
pub enum StoreQueryOutcome {
    Rows(Vec<StoreItem>),
    Unavailable,
}

/// What came back from a write or delete.
#[derive(Debug)]
pub enum StoreWriteOutcome {
    Done,
    Unavailable,
}

/// The attribute is string-typed and reads as `v`.
pub open spec fn s_field_decodes(a: Option<StoreAttr>, v: Seq<char>) -> bool {
    a matches Some(StoreAttr::S(t)) && t@ == v
}

/// The attribute is number-typed and its numeral fits a `u64`.
pub open spec fn n_field_decodable_u64(a: Option<StoreAttr>) -> bool {
    a matches Some(StoreAttr::N(t)) && t@.len() > 0 && all_dec_digits(t@) && dec_val(t@)
        <= u64::MAX as int
}

/// The attribute is number-typed and its numeral fits a `u128`.
pub open spec fn n_field_decodable_u128(a: Option<StoreAttr>) -> bool {
    a matches Some(StoreAttr::N(t)) && t@.len() > 0 && all_dec_digits(t@) && dec_val(t@)
        <= u128::MAX as int
}

/// The number a number-typed attribute denotes.
pub open spec fn n_field_val(a: Option<StoreAttr>) -> int {
    match a {
        Some(StoreAttr::N(t)) => dec_val(t@),
        _ => 0,
    }
}

/// Every field a record requires is present, has the right attribute
/// type, and every numeral fits its field.  The affix side alone may be
/// absent: it then falls back to the configured default.
pub open spec fn item_decodable(it: StoreItem) -> bool {
    &&& it.sku matches Some(StoreAttr::S(_))
    &&& it.title matches Some(StoreAttr::S(_))
    &&& n_field_decodable_u64(it.description)
    &&& n_field_decodable_u64(it.quantity)
    &&& n_field_decodable_u128(it.expiry)
    &&& it.currency_code matches Some(StoreAttr::S(_))
    &&& it.currency_symbol matches Some(StoreAttr::S(_))
    &&& (it.currency_affix_side is None || it.currency_affix_side matches Some(StoreAttr::S(_)))
    &&& n_field_decodable_u64(it.amount)
}

/// Reading `it` yields exactly the record `r`.
pub open spec fn decodes_to(it: StoreItem, r: Inventory) -> bool {
    &&& item_decodable(it)
    &&& s_field_decodes(it.sku, r.sku@)
    &&& s_field_decodes(it.title, r.title@)
    &&& r.description as int == n_field_val(it.description)
    &&& r.quantity as int == n_field_val(it.quantity)
    &&& r.expiry as int == n_field_val(it.expiry)
    &&& s_field_decodes(it.currency_code, r.currency_code@)
    &&& s_field_decodes(it.currency_symbol, r.currency_symbol@)
    &&& match it.currency_affix_side {
        Some(StoreAttr::S(t)) => r.currency_affix_side@ == t@,
        None => r.currency_affix_side@ == "left"@,
        _ => false,
    }
    &&& r.amount as int == n_field_val(it.amount)
}

/// `it` is the store-native rendering of the record `inv`: every string
/// field as a string attribute, every number as its canonical decimal
/// numeral.
pub open spec fn encodes(inv: Inventory, it: StoreItem) -> bool {
    &&& s_field_decodes(it.sku, inv.sku@)
    &&& s_field_decodes(it.title, inv.title@)
    &&& (it.description matches Some(StoreAttr::N(t)) && t@ == dec_digits(inv.description as int))
    &&& (it.quantity matches Some(StoreAttr::N(t)) && t@ == dec_digits(inv.quantity as int))
    &&& (it.expiry matches Some(StoreAttr::N(t)) && t@ == dec_digits(inv.expiry as int))
    &&& s_field_decodes(it.currency_code, inv.currency_code@)
    &&& s_field_decodes(it.currency_symbol, inv.currency_symbol@)
    &&& s_field_decodes(it.currency_affix_side, inv.currency_affix_side@)
    &&& (it.amount matches Some(StoreAttr::N(t)) && t@ == dec_digits(inv.amount as int))
}

/// Renders a record into named store attributes; no partition key yet.
pub fn inventory_to_item(inventory: &Inventory) -> (it: StoreItem)
    ensures
        encodes(*inventory, it),
        it.sku_id is None,
{
    StoreItem {
        sku: Some(StoreAttr::S(inventory.sku.clone())),
        title: Some(StoreAttr::S(inventory.title.clone())),
        description: Some(StoreAttr::N(u64_to_decimal(inventory.description))),
        quantity: Some(StoreAttr::N(u64_to_decimal(inventory.quantity))),
        expiry: Some(StoreAttr::N(u128_to_decimal(inventory.expiry))),
        currency_code: Some(StoreAttr::S(inventory.currency_code.clone())),
        currency_symbol: Some(StoreAttr::S(inventory.currency_symbol.clone())),
        currency_affix_side: Some(StoreAttr::S(inventory.currency_affix_side.clone())),
        amount: Some(StoreAttr::N(u64_to_decimal(inventory.amount))),
        sku_id: None,
    }
}

/// Reads a record out of a stored item; `None` exactly when some
/// required field is absent, wrongly typed, or out of range.
pub fn try_to_inventory(it: &StoreItem) -> (r: Option<Inventory>)
    ensures
        r matches Some(inv) ==> decodes_to(*it, inv),
        item_decodable(*it) ==> r is Some,
{
    let sku = match &it.sku {
        Some(StoreAttr::S(t)) => t.clone(),
        _ => {
            return None;
        },
    };
    let title = match &it.title {
        Some(StoreAttr::S(t)) => t.clone(),
        _ => {
            return None;
        },
    };
    let description = match &it.description {
        Some(StoreAttr::N(t)) => match parse_u64_decimal(t.as_str()) {
            Some(v) => v,
            None => {
                return None;
            },
        },
        _ => {
            return None;
        },
    };
    let quantity = match &it.quantity {
        Some(StoreAttr::N(t)) => match parse_u64_decimal(t.as_str()) {
            Some(v) => v,
            None => {
                return None;
            },
        },
        _ => {
            return None;
        },
    };
    let expiry = match &it.expiry {
        Some(StoreAttr::N(t)) => match parse_u128_decimal(t.as_str()) {
            Some(v) => v,
            None => {
                return None;
            },
        },
        _ => {
            return None;
        },
    };
    let currency_code = match &it.currency_code {
        Some(StoreAttr::S(t)) => t.clone(),
        _ => {
            return None;
        },
    };
    let currency_symbol = match &it.currency_symbol {
        Some(StoreAttr::S(t)) => t.clone(),
        _ => {
            return None;
        },
    };
    let currency_affix_side = match &it.currency_affix_side {
        Some(StoreAttr::S(t)) => t.clone(),
        None => default_currency_affix_side(),
        _ => {
            return None;
        },
    };
    let amount = match &it.amount {
        Some(StoreAttr::N(t)) => match parse_u64_decimal(t.as_str()) {
            Some(v) => v,
            None => {
                return None;
            },
        },
        _ => {
            return None;
        },
    };
    Some(
        Inventory {
            sku,
            title,
            description,
            quantity,
            expiry,
            currency_code,
            currency_symbol,
            currency_affix_side,
            amount,
        },
    )
}

/// Translates what a point lookup handed back: a stored item becomes the
/// record it holds, and no item at all becomes the zero record.
pub fn to_inventory(item: Option<StoreItem>) -> (r: Inventory)
    requires
        item matches Some(it) ==> item_decodable(it),
    ensures
        match item {
            Some(it) => decodes_to(it, r),
            None => is_zero_record(r),
        },
{
    match item {
        Some(it) => match try_to_inventory(&it) {
            Some(inv) => inv,
            None => vstd::pervasive::unreached(),
        },
        None => Inventory::default(),
    }
}

/// Law: the store round trip is exact.  A record rendered into store
/// attributes and read back carries the same content, field for field —
/// the provable heart of write-then-read returning the written record.
pub proof fn lemma_item_round_trip(inv: Inventory, it: StoreItem, back: Inventory)
    requires
        encodes(inv, it),
        decodes_to(it, back),
    ensures
        records_agree(inv, back),
{
    lemma_dec_digits_spec(inv.description as int);
    lemma_dec_digits_spec(inv.quantity as int);
    lemma_dec_digits_spec(inv.expiry as int);
    lemma_dec_digits_spec(inv.amount as int);
}

/// Law: an encoded record is always readable — rendering never produces
/// a partially-formed item.
pub proof fn lemma_encoded_item_decodable(inv: Inventory, it: StoreItem)
    requires
        encodes(inv, it),
    ensures
        item_decodable(it),
{
    lemma_dec_digits_spec(inv.description as int);
    lemma_dec_digits_spec(inv.quantity as int);
    lemma_dec_digits_spec(inv.expiry as int);
    lemma_dec_digits_spec(inv.amount as int);
}

/// Builds the full-overwrite write request for a record: its attributes
/// plus the numeric partition key copied from `sku`.
pub fn inventory_to_put_input(inventory: &Inventory) -> (r: PutInput)
    ensures
        r.table_name@ == "inventory"@,
        encodes(*inventory, r.item),
        r.item.sku_id matches Some(StoreAttr::N(t)) && t@ == inventory.sku@,
{
    let mut item = inventory_to_item(inventory);
    item.sku_id = Some(StoreAttr::N(inventory.sku.clone()));
    PutInput { table_name: String::from_str("inventory"), item }
}

/// Builds the delete request: only the partition key, taken from the
/// record's `sku`.
pub fn inventory_to_delete_input(inventory: &Inventory) -> (r: DeleteInput)
    ensures
        r.table_name@ == "inventory"@,
        r.key_name@ == "sku_id"@,
        r.key_value matches StoreAttr::N(t) && t@ == inventory.sku@,
{
    DeleteInput {
        table_name: String::from_str("inventory"),
        key_name: String::from_str("sku_id"),
        key_value: StoreAttr::N(inventory.sku.clone()),
    }
}

/// Builds the point-lookup query: the `sku` secondary index, matched on
/// the key as a string value.
pub fn build_sku_query(sku: String, index_name: String) -> (r: QueryRequest)
    ensures
        r.table_name@ == "payment-details"@,
        r.index_name == index_name,
        r.key_name@ == "sku_id"@,
        r.key_value matches StoreAttr::S(t) && t == sku,
{
    QueryRequest {
        table_name: String::from_str("payment-details"),
        index_name,
        key_name: String::from_str("sku_id"),
        key_value: StoreAttr::S(sku),
    }
}

/// Builds the search query: the title secondary index.
pub fn build_title_query(title: String, index_name: String) -> (r: QueryRequest)
    ensures
        r.table_name@ == "payment-details"@,
        r.index_name == index_name,
        r.key_name@ == "title"@,
        r.key_value matches StoreAttr::S(t) && t == title,
{
    QueryRequest {
        table_name: String::from_str("payment-details"),
        index_name,
        key_name: String::from_str("title"),
        key_value: StoreAttr::S(title),
    }
}

/// Decides the point-read result.  No matching row is its own not-found
/// outcome, distinct from a communication failure; among several matches
/// the last one returned wins, the store's last-write-wins tie-break.
pub fn get_inventory_by_sku(outcome: StoreQueryOutcome) -> (r: Result<Inventory, PaymentErr>)
    requires
        match outcome {
            StoreQueryOutcome::Rows(rows) => rows@.len() > 0 ==> item_decodable(rows@.last()),
            StoreQueryOutcome::Unavailable => true,
        },
    ensures
        match outcome {
            StoreQueryOutcome::Rows(rows) => {
                if rows@.len() == 0 {
                    r == Err::<Inventory, PaymentErr>(PaymentErr::NoPreviousPayment)
                } else {
                    r matches Ok(inv) && decodes_to(rows@.last(), inv)
                }
            },
            StoreQueryOutcome::Unavailable => r == Err::<Inventory, PaymentErr>(
                PaymentErr::RusotoDynamodbError,
            ),
        },
{
    match outcome {
        StoreQueryOutcome::Rows(mut rows) => match rows.pop() {
            Some(it) => Ok(to_inventory(Some(it))),
            None => Err(PaymentErr::NoPreviousPayment),
        },
        StoreQueryOutcome::Unavailable => Err(PaymentErr::RusotoDynamodbError),
    }
}

/// Every row of a query result is readable.
pub open spec fn all_items_decodable(rows: Seq<StoreItem>) -> bool {
    forall|i: int| 0 <= i < rows.len() ==> item_decodable(#[trigger] rows[i])
}

/// Decides the search result: every matching row becomes a record, in
/// the order the index returned them; an empty match list stays an empty
/// list — the validity filter downstream turns it into the expiry
/// failure.  Only a communication failure is an error here.
pub fn find_inventory_by_title(outcome: StoreQueryOutcome) -> (r: Result<Vec<Inventory>, PaymentErr>)
    requires
        match outcome {
            StoreQueryOutcome::Rows(rows) => all_items_decodable(rows@),
            StoreQueryOutcome::Unavailable => true,
        },
    ensures
        match outcome {
            StoreQueryOutcome::Rows(rows) => r matches Ok(list) && list@.len() == rows@.len()
                && forall|i: int|
                0 <= i < rows@.len() ==> decodes_to(rows@[i], #[trigger] list@[i]),
            StoreQueryOutcome::Unavailable => r == Err::<Vec<Inventory>, PaymentErr>(
                PaymentErr::RusotoDynamodbError,
            ),
        },
{
    match outcome {
        StoreQueryOutcome::Rows(rows) => {
            let mut list: Vec<Inventory> = Vec::new();
            let mut i: usize = 0;
            while i < rows.len()
                invariant
                    i <= rows.len(),
                    all_items_decodable(rows@),
                    list@.len() == i,
                    forall|j: int| 0 <= j < i ==> decodes_to(rows@[j], #[trigger] list@[j]),
                decreases rows.len() - i,
            {
                list.push(to_inventory(Some(rows[i].clone())));
                i = i + 1;
            }
            Ok(list)
        },
        StoreQueryOutcome::Unavailable => Err(PaymentErr::RusotoDynamodbError),
    }
}

/// Decides the write result: the store either replaced the entry, in
/// which case the written record itself is echoed, or could not be
/// reached.
pub fn write_inventory_update(inventory: Inventory, outcome: StoreWriteOutcome) -> (r: Result<
    Inventory,
    PaymentErr,
>)
    ensures
        outcome is Done ==> r == Ok::<Inventory, PaymentErr>(inventory),
        outcome is Unavailable ==> r == Err::<Inventory, PaymentErr>(
            PaymentErr::RusotoDynamodbError,
        ),
{
    match outcome {
        StoreWriteOutcome::Done => Ok(inventory),
        StoreWriteOutcome::Unavailable => Err(PaymentErr::RusotoDynamodbError),
    }
}

/// Decides the delete result: the key-only echo on success, never the
/// record that existed before the deletion.
pub fn delete_inventory(record: Inventory, outcome: StoreWriteOutcome) -> (r: Result<
    Inventory,
    PaymentErr,
>)
    ensures
        outcome is Done ==> r == Ok::<Inventory, PaymentErr>(record),
        outcome is Unavailable ==> r == Err::<Inventory, PaymentErr>(
            PaymentErr::RusotoDynamodbError,
        ),
{
    match outcome {
        StoreWriteOutcome::Done => Ok(record),
        StoreWriteOutcome::Unavailable => Err(PaymentErr::RusotoDynamodbError),
    }
}

/// The value under a key in a submitted form, the first pair with that
/// key winning.
pub open spec fn form_lookup(form: Seq<(String, String)>, key: Seq<char>) -> Option<Seq<char>>
    decreases form.len(),
{
    if form.len() == 0 {
        None::<Seq<char>>
    } else if form[0].0@ == key {
        Some(form[0].1@)
    } else {
        form_lookup(form.drop_first(), key)
    }
}

/// Builds the key-only record a delete request denotes.  The identifying
/// field is required; a form without it is rejected as malformed, and no
/// later step runs.
pub fn delete_request_record(form: &Vec<(String, String)>) -> (r: Result<Inventory, PaymentErr>)
    ensures
        match form_lookup(form@, "entity_type"@) {
            Some(v) => r matches Ok(inv) && is_key_only_record(inv, v),
            None => r == Err::<Inventory, PaymentErr>(PaymentErr::DeleteFieldsMissing),
        },
{
    let key = String::from_str("entity_type");
    let mut i: usize = 0;
    proof {
        assert(form@.skip(0) =~= form@);
    }
    while i < form.len()
        invariant
            i <= form.len(),
            key@ == "entity_type"@,
            form_lookup(form@, "entity_type"@) == form_lookup(
                form@.skip(i as int),
                "entity_type"@,
            ),
        decreases form.len() - i,
    {
        proof {
            assert(form@.skip(i as int)[0] == form@[i as int]);
            assert(form@.skip(i as int).drop_first() =~= form@.skip(i as int + 1));
        }
        if form[i].0 == key {
            return Ok(Inventory::key_only(form[i].1.clone()));
        }
        i = i + 1;
    }
    proof {
        assert(form@.skip(form@.len() as int) =~= Seq::<(String, String)>::empty());
    }
    Err(PaymentErr::DeleteFieldsMissing)
}

/// Where the store client should point, resolved once at startup.
#[derive(Debug)]
pub enum StoreRegion {
    Local { endpoint: String },
    Named { name: String },
}

/// Resolves the configured region.  An unset region falls back to the
/// local store, as does the name `local`; the local endpoint has its own
/// fixed default.  Any other name is taken as a named region, to be
/// parsed by the store client at boot.
pub fn resolve_store_region(region_name: Option<String>, local_url: Option<String>) -> (r:
    StoreRegion)
    ensures
        match region_name {
            None => r matches StoreRegion::Local { endpoint } && local_endpoint_ok(
                local_url,
                endpoint@,
            ),
            Some(n) => {
                if n@ == "local"@ {
                    r matches StoreRegion::Local { endpoint } && local_endpoint_ok(
                        local_url,
                        endpoint@,
                    )
                } else {
                    r matches StoreRegion::Named { name } && name == n
                }
            },
        },
{
    let name = match region_name {
        Some(n) => n,
        None => String::from_str("local"),
    };
    if name == String::from_str("local") {
        let endpoint = match local_url {
            Some(u) => u,
            None => String::from_str("localhost:8000"),
        };
        StoreRegion::Local { endpoint }
    } else {
        StoreRegion::Named { name }
    }
}

/// The local endpoint is the configured one, or the fixed default when
/// none is configured.
pub open spec fn local_endpoint_ok(local_url: Option<String>, endpoint: Seq<char>) -> bool {
    match local_url {
        Some(u) => endpoint == u@,
        None => endpoint == "localhost:8000"@,
    }
}

/// Law: write-then-read round trip through the store.  A record written
/// with an expiry still in the future, stored as its encoded item and
/// handed back as the row the point lookup returns, passes the validity
/// check and carries the very content that was written.
pub proof fn lemma_write_then_read_returns_written(
    inv: Inventory,
    it: StoreItem,
    back: Inventory,
    now: u128,
)
    requires
        encodes(inv, it),
        decodes_to(it, back),
        now < inv.expiry,
    ensures
        records_agree(inv, back),
        is_valid_at(back, now),
{
    lemma_item_round_trip(inv, it, back);
}

} // verus!
