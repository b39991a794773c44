//! Storage limits, their validation, and the node/byte/depth budget that
//! bounds every stored or returned host value.
use crate::error::{HostError, HostErrorCode};
use crate::text::{byte_len, utf8};
use crate::value::{
    json_items_model, json_entries_model, lemma_json_array_model, lemma_json_object_model,
    lemma_list_model, lemma_mapping_model, lemma_record_model, lemma_variant_model, mapping_model,
    record_model, values_model, HostJsonValue, HostValue, JsonModel, ValueModel,
};
use vstd::layout::size_of;
use vstd::prelude::*;

verus! {

broadcast use {vstd::std_specs::vec::group_vec_axioms, vstd::seq::group_seq_axioms};

/// Bounds on storage admission, stored values and returned results.
#[derive(Clone, Copy, Debug)]
pub struct StorageLimits {
    pub max_pending_jobs: usize,
    pub max_pending_bytes: usize,
    pub max_value_bytes: usize,
    pub max_result_bytes: usize,
    pub max_nodes: usize,
    pub max_depth: usize,
    pub max_page_entries: usize,
    pub max_scan_rows: usize,
    pub max_receipts: usize,
    pub max_receipt_bytes: usize,
    pub max_receipt_retention_seconds: u64,
}

/// The limits storage uses unless configured otherwise.
pub open spec fn default_storage_limits() -> StorageLimits {
    StorageLimits {
        max_pending_jobs: 32,
        max_pending_bytes: 67108864,
        max_value_bytes: 1048576,
        max_result_bytes: 4194304,
        max_nodes: 16384,
        max_depth: 48,
        max_page_entries: 1000,
        max_scan_rows: 10000,
        max_receipts: 10000,
        max_receipt_bytes: 67108864,
        max_receipt_retention_seconds: 86400,
    }
}

impl Default for StorageLimits {
    fn default() -> (limits: StorageLimits)
        ensures
            limits == default_storage_limits(),
            limits.max_pending_jobs == 32,
            limits.max_pending_bytes == 64 * 1024 * 1024,
            limits.max_value_bytes == 1024 * 1024,
            limits.max_result_bytes == 4 * 1024 * 1024,
            limits.max_nodes == 16384,
            limits.max_depth == 48,
            limits.max_page_entries == 1000,
            limits.max_scan_rows == 10000,
            limits.max_receipts == 10000,
            limits.max_receipt_bytes == 64 * 1024 * 1024,
            limits.max_receipt_retention_seconds == 86400,
    {
        StorageLimits {
            max_pending_jobs: 32,
            max_pending_bytes: 64 * 1024 * 1024,
            max_value_bytes: 1024 * 1024,
            max_result_bytes: 4 * 1024 * 1024,
            max_nodes: 16384,
            max_depth: 48,
            max_page_entries: 1000,
            max_scan_rows: 10000,
            max_receipts: 10000,
            max_receipt_bytes: 64 * 1024 * 1024,
            max_receipt_retention_seconds: 86400,
        }
    }
}

/// Limits that storage accepts: every bound positive, at most 1024 pending
/// jobs and depth 64, and room for one value plus one result in the pending
/// byte budget.
pub open spec fn limits_valid(l: StorageLimits) -> bool {
    &&& 0 < l.max_pending_jobs <= 1024
    &&& l.max_value_bytes > 0
    &&& l.max_result_bytes > 0
    &&& l.max_nodes > 0
    &&& 0 < l.max_depth <= 64
    &&& l.max_page_entries > 0
    &&& l.max_scan_rows > 0
    &&& l.max_receipts > 0
    &&& l.max_receipt_bytes > 0
    &&& l.max_receipt_retention_seconds > 0
    &&& l.max_value_bytes + l.max_result_bytes <= l.max_pending_bytes
}

/// The error for an exhausted storage resource budget.
pub open spec fn is_exceeded_error(e: HostError) -> bool {
    &&& e.code == HostErrorCode::BudgetExceeded
    &&& e.message@ == "storage resource limit exceeded"@
    &&& e.details@.len() == 0
}

pub fn exceeded() -> (error: HostError)
    ensures
        is_exceeded_error(error),
{
    HostError::new(HostErrorCode::BudgetExceeded, "storage resource limit exceeded")
}

// ---------------------------------------------------------------------------
// The value budget: every node is charged its in-memory size, and strings,
// byte strings, record field names and variant names their byte length, each
// charge at the node's depth. A value is admitted while depth, node count and
// byte count stay within bounds.

pub open spec fn node_size() -> nat {
    size_of::<HostValue>()
}

pub open spec fn json_node_size() -> nat {
    size_of::<HostJsonValue>()
}

pub type Charges = Seq<(nat, nat)>;

pub open spec fn value_charges(v: ValueModel, depth: nat) -> Charges
    decreases v,
{
    seq![(depth, node_size())] + match v {
        ValueModel::String(s) => seq![(depth, utf8(s).len())],
        ValueModel::Bytes(b) => seq![(depth, b.len())],
        ValueModel::List(items) => list_charges(items, depth + 1),
        ValueModel::Mapping(entries) => mapping_charges(entries, depth + 1),
        ValueModel::Record(fields) => record_charges(fields, depth),
        ValueModel::Variant { name, fields } => seq![(depth, utf8(name).len())] + list_charges(
            fields,
            depth + 1,
        ),
        ValueModel::Json(j) => json_charges(j, depth + 1),
        _ => seq![],
    }
}

pub open spec fn list_charges(s: Seq<ValueModel>, depth: nat) -> Charges
    decreases s,
{
    if s.len() == 0 {
        seq![]
    } else {
        value_charges(s[0], depth) + list_charges(s.drop_first(), depth)
    }
}

pub open spec fn mapping_charges(s: Seq<(ValueModel, ValueModel)>, depth: nat) -> Charges
    decreases s,
{
    if s.len() == 0 {
        seq![]
    } else {
        value_charges(s[0].0, depth) + value_charges(s[0].1, depth) + mapping_charges(
            s.drop_first(),
            depth,
        )
    }
}

pub open spec fn record_charges(s: Seq<(Seq<char>, ValueModel)>, depth: nat) -> Charges
    decreases s,
{
    if s.len() == 0 {
        seq![]
    } else {
        seq![(depth, utf8(s[0].0).len())] + value_charges(s[0].1, depth + 1) + record_charges(
            s.drop_first(),
            depth,
        )
    }
}

pub open spec fn json_charges(j: JsonModel, depth: nat) -> Charges
    decreases j,
{
    seq![(depth, json_node_size())] + match j {
        JsonModel::String(s) => seq![(depth, utf8(s).len())],
        JsonModel::Array(items) => json_list_charges(items, depth + 1),
        JsonModel::Object(entries) => json_object_charges(entries, depth),
        _ => seq![],
    }
}

pub open spec fn json_list_charges(s: Seq<JsonModel>, depth: nat) -> Charges
    decreases s,
{
    if s.len() == 0 {
        seq![]
    } else {
        json_charges(s[0], depth) + json_list_charges(s.drop_first(), depth)
    }
}

pub open spec fn json_object_charges(s: Seq<(Seq<char>, JsonModel)>, depth: nat) -> Charges
    decreases s,
{
    if s.len() == 0 {
        seq![]
    } else {
        seq![(depth, utf8(s[0].0).len())] + json_charges(s[0].1, depth + 1) + json_object_charges(
            s.drop_first(),
            depth,
        )
    }
}

/// Bounds of one budget run.
pub struct BudgetBounds {
    pub max_depth: nat,
    pub max_nodes: nat,
    pub max_bytes: nat,
}

/// One charge: count a node and add its bytes; `None` when a counter would
/// leave `usize` or the depth, node or byte bound is exceeded.
pub open spec fn charge_step(state: (nat, nat), charge: (nat, nat), bounds: BudgetBounds) -> Option<
    (nat, nat),
> {
    let nodes = state.0 + 1;
    let bytes = state.1 + charge.1;
    if nodes > usize::MAX || bytes > usize::MAX || charge.0 > bounds.max_depth || nodes
        > bounds.max_nodes || bytes > bounds.max_bytes {
        None
    } else {
        Some((nodes, bytes))
    }
}

pub open spec fn run_charges(cs: Charges, state: (nat, nat), bounds: BudgetBounds) -> Option<
    (nat, nat),
>
    decreases cs.len(),
{
    if cs.len() == 0 {
        Some(state)
    } else {
        match charge_step(state, cs[0], bounds) {
            None => None,
            Some(next) => run_charges(cs.drop_first(), next, bounds),
        }
    }
}

/// Charging a concatenation charges the first part, then the second.
pub proof fn lemma_run_concat(a: Charges, b: Charges, state: (nat, nat), bounds: BudgetBounds)
    ensures
        run_charges(a + b, state, bounds) == match run_charges(a, state, bounds) {
            None => None,
            Some(mid) => run_charges(b, mid, bounds),
        },
    decreases a.len(),
{
    if a.len() > 0 {
        assert((a + b).drop_first() =~= a.drop_first() + b);
        match charge_step(state, a[0], bounds) {
            None => {},
            Some(next) => lemma_run_concat(a.drop_first(), b, next, bounds),
        }
    } else {
        assert(a + b =~= b);
    }
}

pub proof fn lemma_run_single(c: (nat, nat), state: (nat, nat), bounds: BudgetBounds)
    ensures
        run_charges(seq![c], state, bounds) == charge_step(state, c, bounds),
{
    let cs: Charges = seq![c];
    assert(cs.drop_first() =~= Seq::<(nat, nat)>::empty());
    reveal_with_fuel(run_charges, 2);
}

/// A run that starts with a charge beyond the depth bound fails.
pub proof fn lemma_run_too_deep(cs: Charges, state: (nat, nat), bounds: BudgetBounds)
    requires
        cs.len() > 0,
        cs[0].0 > bounds.max_depth,
    ensures
        run_charges(cs, state, bounds) is None,
{
}

/// Running budget of one value traversal.
pub struct ValueBudget {
    pub max_depth: usize,
    pub max_nodes: usize,
    pub max_bytes: usize,
    pub nodes: usize,
    pub bytes: usize,
}

impl ValueBudget {
    pub open spec fn bounds(&self) -> BudgetBounds {
        BudgetBounds {
            max_depth: self.max_depth as nat,
            max_nodes: self.max_nodes as nat,
            max_bytes: self.max_bytes as nat,
        }
    }

    pub open spec fn state(&self) -> (nat, nat) {
        (self.nodes as nat, self.bytes as nat)
    }

    pub open spec fn same_bounds(&self, other: &ValueBudget) -> bool {
        self.max_depth == other.max_depth && self.max_nodes == other.max_nodes && self.max_bytes
            == other.max_bytes
    }

    /// Charges one node of `bytes` bytes at `depth`.
    pub fn add(&mut self, depth: usize, bytes: usize) -> (charged: Result<(), HostError>)
        ensures
            final(self).same_bounds(old(self)),
            match charge_step(old(self).state(), (depth as nat, bytes as nat), old(self).bounds()) {
                Some(next) => charged is Ok && final(self).state() == next,
                None => charged matches Err(e) && is_exceeded_error(e),
            },
    {
        self.nodes = match self.nodes.checked_add(1) {
            Some(n) => n,
            None => return Err(exceeded()),
        };
        self.bytes = match self.bytes.checked_add(bytes) {
            Some(n) => n,
            None => return Err(exceeded()),
        };
        if depth > self.max_depth || self.nodes > self.max_nodes || self.bytes > self.max_bytes {
            return Err(exceeded());
        }
        Ok(())
    }

    /// Charges a host value at `depth` and, one level deeper, its contents.
    pub fn host(&mut self, value: &HostValue, depth: usize) -> (charged: Result<(), HostError>)
        ensures
            final(self).same_bounds(old(self)),
            match run_charges(value_charges(value@, depth as nat), old(self).state(), old(self).bounds()) {
                Some(next) => charged is Ok && final(self).state() == next,
                None => charged matches Err(e) && is_exceeded_error(e),
            },
        decreases value,
    {
        let ghost st0 = self.state();
        let ghost b = self.bounds();
        let ghost d = depth as nat;
        let ghost head: Charges = seq![(d, node_size())];
        proof {
            lemma_run_single((d, node_size()), st0, b);
        }
        self.add(depth, std::mem::size_of::<HostValue>())?;
        let ghost st1 = self.state();
        match value {
            HostValue::String(s) => {
                let ghost tail: Charges = seq![(d, utf8(s@).len())];
                proof {
                    lemma_run_concat(head, tail, st0, b);
                    lemma_run_single((d, utf8(s@).len()), st1, b);
                }
                self.add(depth, byte_len(s.as_str()))?;
            },
            HostValue::Bytes(bytes) => {
                let ghost tail: Charges = seq![(d, bytes@.len())];
                proof {
                    lemma_run_concat(head, tail, st0, b);
                    lemma_run_single((d, bytes@.len()), st1, b);
                }
                self.add(depth, bytes.len())?;
            },
            HostValue::List(items) => {
                proof {
                    lemma_list_model(*items);
                    lemma_run_concat(head, list_charges(values_model(items@), d + 1), st0, b);
                }
                self.list(items, depth)?;
            },
            HostValue::Mapping(entries) => {
                let ghost model = mapping_model(entries@);
                proof {
                    lemma_mapping_model(*entries);
                    lemma_run_concat(head, mapping_charges(model, d + 1), st0, b);
                    assert(model.skip(0) =~= model);
                }
                let mut i: usize = 0;
                while i < entries.len()
                    invariant
                        i <= entries@.len(),
                        model == mapping_model(entries@),
                        self.same_bounds(old(self)),
                        b == self.bounds(),
                        st0 == old(self).state(),
                        b == old(self).bounds(),
                        d == depth as nat,
                        run_charges(value_charges(value@, d), st0, b) == run_charges(
                            mapping_charges(model.skip(i as int), d + 1),
                            self.state(),
                            b,
                        ),
                        forall|k: int| 0 <= k < entries@.len() ==> decreases_to!(*value => entries@[k].0),
                        forall|k: int| 0 <= k < entries@.len() ==> decreases_to!(*value => entries@[k].1),
                    decreases entries@.len() - i,
                {
                    let ghost before = self.state();
                    let ghost key = entries@[i as int].0@;
                    let ghost val = entries@[i as int].1@;
                    proof {
                        assert(model.skip(i as int).drop_first() =~= model.skip(i + 1));
                        assert(model.skip(i as int)[0] == (key, val));
                        lemma_run_concat(
                            value_charges(key, d + 1) + value_charges(val, d + 1),
                            mapping_charges(model.skip(i + 1), d + 1),
                            before,
                            b,
                        );
                        lemma_run_concat(value_charges(key, d + 1), value_charges(val, d + 1), before, b);
                    }
                    let child = match depth.checked_add(1) {
                        Some(c) => c,
                        None => {
                            proof {
                                lemma_run_too_deep(value_charges(key, d + 1), before, b);
                            }
                            return Err(exceeded());
                        },
                    };
                    self.host(&entries[i].0, child)?;
                    self.host(&entries[i].1, child)?;
                    i = i + 1;
                }
            },
            HostValue::Record(fields) => {
                let ghost model = record_model(fields@);
                proof {
                    lemma_record_model(*fields);
                    lemma_run_concat(head, record_charges(model, d), st0, b);
                    assert(model.skip(0) =~= model);
                }
                let mut i: usize = 0;
                while i < fields.len()
                    invariant
                        i <= fields@.len(),
                        model == record_model(fields@),
                        self.same_bounds(old(self)),
                        b == self.bounds(),
                        st0 == old(self).state(),
                        b == old(self).bounds(),
                        d == depth as nat,
                        run_charges(value_charges(value@, d), st0, b) == run_charges(
                            record_charges(model.skip(i as int), d),
                            self.state(),
                            b,
                        ),
                        forall|k: int| 0 <= k < fields@.len() ==> decreases_to!(*value => fields@[k].1),
                    decreases fields@.len() - i,
                {
                    let ghost before = self.state();
                    let ghost name = fields@[i as int].0@;
                    let ghost val = fields@[i as int].1@;
                    let ghost label: Charges = seq![(d, utf8(name).len())];
                    proof {
                        assert(model.skip(i as int).drop_first() =~= model.skip(i + 1));
                        assert(model.skip(i as int)[0] == (name, val));
                        lemma_run_concat(
                            label + value_charges(val, d + 1),
                            record_charges(model.skip(i + 1), d),
                            before,
                            b,
                        );
                        lemma_run_concat(label, value_charges(val, d + 1), before, b);
                        lemma_run_single((d, utf8(name).len()), before, b);
                    }
                    self.add(depth, byte_len(fields[i].0.as_str()))?;
                    let ghost after_label = self.state();
                    let child = match depth.checked_add(1) {
                        Some(c) => c,
                        None => {
                            proof {
                                lemma_run_too_deep(value_charges(val, d + 1), after_label, b);
                            }
                            return Err(exceeded());
                        },
                    };
                    self.host(&fields[i].1, child)?;
                    i = i + 1;
                }
            },
            HostValue::Variant { name, fields } => {
                let ghost label: Charges = seq![(d, utf8(name@).len())];
                proof {
                    lemma_variant_model(*name, *fields);
                    lemma_run_concat(head, label + list_charges(values_model(fields@), d + 1), st0, b);
                    lemma_run_concat(label, list_charges(values_model(fields@), d + 1), st1, b);
                    lemma_run_single((d, utf8(name@).len()), st1, b);
                }
                self.add(depth, byte_len(name.as_str()))?;
                self.list(fields, depth)?;
            },
            HostValue::Json(j) => {
                proof {
                    lemma_run_concat(head, json_charges(j@, d + 1), st0, b);
                }
                let child = match depth.checked_add(1) {
                    Some(c) => c,
                    None => {
                        proof {
                            lemma_run_too_deep(json_charges(j@, d + 1), st1, b);
                        }
                        return Err(exceeded());
                    },
                };
                self.json(j, child)?;
            },
            _ => {
                assert(value_charges(value@, d) =~= head);
            },
        }
        Ok(())
    }

    /// Charges the items of a list (or variant fields) one level below `depth`.
    fn list(&mut self, items: &Vec<HostValue>, depth: usize) -> (charged: Result<(), HostError>)
        ensures
            final(self).same_bounds(old(self)),
            match run_charges(list_charges(values_model(items@), depth as nat + 1), old(self).state(), old(self).bounds()) {
                Some(next) => charged is Ok && final(self).state() == next,
                None => charged matches Err(e) && is_exceeded_error(e),
            },
        decreases items, 0nat,
    {
        let ghost st0 = self.state();
        let ghost b = self.bounds();
        let ghost d = depth as nat;
        let ghost model = values_model(items@);
        assert(model.skip(0) =~= model);
        let mut i: usize = 0;
        while i < items.len()
            invariant
                i <= items@.len(),
                model == values_model(items@),
                self.same_bounds(old(self)),
                b == self.bounds(),
                st0 == old(self).state(),
                b == old(self).bounds(),
                d == depth as nat,
                run_charges(list_charges(model, d + 1), st0, b) == run_charges(
                    list_charges(model.skip(i as int), d + 1),
                    self.state(),
                    b,
                ),
            decreases items@.len() - i,
        {
            let ghost before = self.state();
            let ghost item = items@[i as int]@;
            proof {
                assert(model.skip(i as int).drop_first() =~= model.skip(i + 1));
                assert(model.skip(i as int)[0] == item);
                lemma_run_concat(
                    value_charges(item, d + 1),
                    list_charges(model.skip(i + 1), d + 1),
                    before,
                    b,
                );
            }
            let child = match depth.checked_add(1) {
                Some(c) => c,
                None => {
                    proof {
                        lemma_run_too_deep(value_charges(item, d + 1), before, b);
                    }
                    return Err(exceeded());
                },
            };
            self.host(&items[i], child)?;
            i = i + 1;
        }
        Ok(())
    }

    /// Charges a JSON document at `depth` and, one level deeper, its contents.
    pub fn json(&mut self, value: &HostJsonValue, depth: usize) -> (charged: Result<(), HostError>)
        ensures
            final(self).same_bounds(old(self)),
            match run_charges(json_charges(value@, depth as nat), old(self).state(), old(self).bounds()) {
                Some(next) => charged is Ok && final(self).state() == next,
                None => charged matches Err(e) && is_exceeded_error(e),
            },
        decreases value,
    {
        let ghost st0 = self.state();
        let ghost b = self.bounds();
        let ghost d = depth as nat;
        let ghost head: Charges = seq![(d, json_node_size())];
        proof {
            lemma_run_single((d, json_node_size()), st0, b);
        }
        self.add(depth, std::mem::size_of::<HostJsonValue>())?;
        let ghost st1 = self.state();
        match value {
            HostJsonValue::String(s) => {
                let ghost tail: Charges = seq![(d, utf8(s@).len())];
                proof {
                    lemma_run_concat(head, tail, st0, b);
                    lemma_run_single((d, utf8(s@).len()), st1, b);
                }
                self.add(depth, byte_len(s.as_str()))?;
            },
            HostJsonValue::Array(items) => {
                let ghost model = json_items_model(items@);
                proof {
                    lemma_json_array_model(*items);
                    lemma_run_concat(head, json_list_charges(model, d + 1), st0, b);
                    assert(model.skip(0) =~= model);
                }
                let mut i: usize = 0;
                while i < items.len()
                    invariant
                        i <= items@.len(),
                        model == json_items_model(items@),
                        self.same_bounds(old(self)),
                        b == self.bounds(),
                        st0 == old(self).state(),
                        b == old(self).bounds(),
                        d == depth as nat,
                        run_charges(json_charges(value@, d), st0, b) == run_charges(
                            json_list_charges(model.skip(i as int), d + 1),
                            self.state(),
                            b,
                        ),
                        forall|k: int| 0 <= k < items@.len() ==> decreases_to!(*value => items@[k]),
                    decreases items@.len() - i,
                {
                    let ghost before = self.state();
                    let ghost item = items@[i as int]@;
                    proof {
                        assert(model.skip(i as int).drop_first() =~= model.skip(i + 1));
                        assert(model.skip(i as int)[0] == item);
                        lemma_run_concat(
                            json_charges(item, d + 1),
                            json_list_charges(model.skip(i + 1), d + 1),
                            before,
                            b,
                        );
                    }
                    let child = match depth.checked_add(1) {
                        Some(c) => c,
                        None => {
                            proof {
                                lemma_run_too_deep(json_charges(item, d + 1), before, b);
                            }
                            return Err(exceeded());
                        },
                    };
                    self.json(&items[i], child)?;
                    i = i + 1;
                }
            },
            HostJsonValue::Object(entries) => {
                let ghost model = json_entries_model(entries@);
                proof {
                    lemma_json_object_model(*entries);
                    lemma_run_concat(head, json_object_charges(model, d), st0, b);
                    assert(model.skip(0) =~= model);
                }
                let mut i: usize = 0;
                while i < entries.len()
                    invariant
                        i <= entries@.len(),
                        model == json_entries_model(entries@),
                        self.same_bounds(old(self)),
                        b == self.bounds(),
                        st0 == old(self).state(),
                        b == old(self).bounds(),
                        d == depth as nat,
                        run_charges(json_charges(value@, d), st0, b) == run_charges(
                            json_object_charges(model.skip(i as int), d),
                            self.state(),
                            b,
                        ),
                        forall|k: int| 0 <= k < entries@.len() ==> decreases_to!(*value => entries@[k].1),
                    decreases entries@.len() - i,
                {
                    let ghost before = self.state();
                    let ghost name = entries@[i as int].0@;
                    let ghost val = entries@[i as int].1@;
                    let ghost label: Charges = seq![(d, utf8(name).len())];
                    proof {
                        assert(model.skip(i as int).drop_first() =~= model.skip(i + 1));
                        assert(model.skip(i as int)[0] == (name, val));
                        lemma_run_concat(
                            label + json_charges(val, d + 1),
                            json_object_charges(model.skip(i + 1), d),
                            before,
                            b,
                        );
                        lemma_run_concat(label, json_charges(val, d + 1), before, b);
                        lemma_run_single((d, utf8(name).len()), before, b);
                    }
                    self.add(depth, byte_len(entries[i].0.as_str()))?;
                    let ghost after_label = self.state();
                    let child = match depth.checked_add(1) {
                        Some(c) => c,
                        None => {
                            proof {
                                lemma_run_too_deep(json_charges(val, d + 1), after_label, b);
                            }
                            return Err(exceeded());
                        },
                    };
                    self.json(&entries[i].1, child)?;
                                        i = i + 1;
                }
            },
            _ => {
                assert(json_charges(value@, d) =~= head);
            },
        }
        Ok(())
    }
}

pub open spec fn value_bounds(limits: StorageLimits, max_bytes: usize) -> BudgetBounds {
    BudgetBounds {
        max_depth: limits.max_depth as nat,
        max_nodes: limits.max_nodes as nat,
        max_bytes: max_bytes as nat,
    }
}

/// The byte size charged for `v` under a byte bound, or `None` when `v`
/// exceeds the depth, node or byte bound.
pub open spec fn bounded_size(v: ValueModel, limits: StorageLimits, max_bytes: usize) -> Option<nat> {
    match run_charges(value_charges(v, 0), (0, 0), value_bounds(limits, max_bytes)) {
        Some(state) => Some(state.1),
        None => None,
    }
}

/// A run that succeeds stays within its bounds, if it started within them.
pub proof fn lemma_run_within_bounds(cs: Charges, state: (nat, nat), bounds: BudgetBounds)
    requires
        state.0 <= bounds.max_nodes,
        state.1 <= bounds.max_bytes,
        run_charges(cs, state, bounds) is Some,
    ensures
        match run_charges(cs, state, bounds) {
            Some(end) => end.0 <= bounds.max_nodes && end.1 <= bounds.max_bytes,
            None => false,
        },
    decreases cs.len(),
{
    if cs.len() > 0 {
        let next = charge_step(state, cs[0], bounds)->0;
        lemma_run_within_bounds(cs.drop_first(), next, bounds);
    }
}

/// A run that succeeds under some bounds succeeds, with the same result,
/// under looser ones.
pub proof fn lemma_run_looser_bounds(cs: Charges, state: (nat, nat), tight: BudgetBounds, loose: BudgetBounds)
    requires
        tight.max_depth <= loose.max_depth,
        tight.max_nodes <= loose.max_nodes,
        tight.max_bytes <= loose.max_bytes,
        run_charges(cs, state, tight) is Some,
    ensures
        run_charges(cs, state, loose) == run_charges(cs, state, tight),
    decreases cs.len(),
{
    if cs.len() > 0 {
        let next = charge_step(state, cs[0], tight)->0;
        lemma_run_looser_bounds(cs.drop_first(), next, tight, loose);
    }
}

/// The size charged for a value never exceeds the byte bound it was
/// charged under, and a value admitted under a byte bound is admitted,
/// with the same size, under any larger one (in particular a value that
/// fits the value limit fits the result limit when that is larger).
pub proof fn lemma_bounded_size(v: ValueModel, limits: StorageLimits, max_bytes: usize, larger: usize)
    requires
        max_bytes <= larger,
    ensures
        bounded_size(v, limits, max_bytes) matches Some(n) ==> n <= max_bytes,
        bounded_size(v, limits, max_bytes) is Some ==> bounded_size(v, limits, larger) == bounded_size(
            v,
            limits,
            max_bytes,
        ),
{
    let cs = value_charges(v, 0);
    if run_charges(cs, (0, 0), value_bounds(limits, max_bytes)) is Some {
        lemma_run_within_bounds(cs, (0, 0), value_bounds(limits, max_bytes));
        lemma_run_looser_bounds(cs, (0, 0), value_bounds(limits, max_bytes), value_bounds(limits, larger));
    }
}

/// A byte string is charged one node and every one of its bytes: where it
/// is admitted, its size is the node size plus its length, and one longer
/// than the byte bound is never admitted.
pub proof fn lemma_bytes_size(b: Seq<u8>, limits: StorageLimits, max_bytes: usize)
    ensures
        bounded_size(ValueModel::Bytes(b), limits, max_bytes) matches Some(n) ==> n == size_of::<
            HostValue,
        >() + b.len(),
        b.len() > max_bytes ==> bounded_size(ValueModel::Bytes(b), limits, max_bytes) is None,
{
    let bounds = value_bounds(limits, max_bytes);
    let head: Charges = seq![(0nat, node_size())];
    let tail: Charges = seq![(0nat, b.len())];
    assert(value_charges(ValueModel::Bytes(b), 0) =~= head + tail);
    lemma_run_concat(head, tail, (0, 0), bounds);
    lemma_run_single((0nat, node_size()), (0, 0), bounds);
    match charge_step((0, 0), (0nat, node_size()), bounds) {
        Some(mid) => lemma_run_single((0nat, b.len()), mid, bounds),
        None => {},
    }
}

impl StorageLimits {
    /// A fresh budget bounded by the value byte limit.
    pub fn value_budget(&self) -> (budget: ValueBudget)
        ensures
            budget.bounds() == value_bounds(*self, self.max_value_bytes),
            budget.state() == (0nat, 0nat),
    {
        ValueBudget {
            max_depth: self.max_depth,
            max_nodes: self.max_nodes,
            max_bytes: self.max_value_bytes,
            nodes: 0,
            bytes: 0,
        }
    }

    /// Accepts exactly the limits described by [`limits_valid`].
    pub fn validate(&self) -> (valid: Result<(), HostError>)
        ensures
            match valid {
                Ok(()) => limits_valid(*self),
                Err(e) => !limits_valid(*self) && e.code == HostErrorCode::InvalidRequest && e.message@
                    == "invalid storage limits"@,
            },
    {
        let within_pending = match self.max_value_bytes.checked_add(self.max_result_bytes) {
            Some(n) => n <= self.max_pending_bytes,
            None => false,
        };
        if self.max_pending_jobs == 0 || self.max_pending_jobs > 1024 || self.max_value_bytes == 0
            || self.max_result_bytes == 0 || self.max_nodes == 0 || self.max_depth == 0
            || self.max_depth > 64 || self.max_page_entries == 0 || self.max_scan_rows == 0
            || self.max_receipts == 0 || self.max_receipt_bytes == 0
            || self.max_receipt_retention_seconds == 0 || !within_pending {
            return Err(HostError::new(HostErrorCode::InvalidRequest, "invalid storage limits"));
        }
        Ok(())
    }

    /// Charged size of a value to be stored, bounded by `max_value_bytes`.
    pub fn value_size(&self, value: &HostValue) -> (size: Result<usize, HostError>)
        ensures
            match bounded_size(value@, *self, self.max_value_bytes) {
                Some(n) => size matches Ok(s) && s == n,
                None => size matches Err(e) && is_exceeded_error(e),
            },
            value matches HostValue::Bytes(b) ==> (size matches Ok(n) ==> n == size_of::<
                HostValue,
            >() + b@.len()),
            value matches HostValue::Bytes(b) ==> (b@.len() > self.max_value_bytes ==> size is Err),
    {
        proof {
            if let HostValue::Bytes(b) = value {
                lemma_bytes_size(b@, *self, self.max_value_bytes);
            }
        }
        self.bounded_value_size(value, self.max_value_bytes)
    }

    /// Charged size of a value to be returned, bounded by `max_result_bytes`.
    pub fn result_value_size(&self, value: &HostValue) -> (size: Result<usize, HostError>)
        ensures
            match bounded_size(value@, *self, self.max_result_bytes) {
                Some(n) => size matches Ok(s) && s == n,
                None => size matches Err(e) && is_exceeded_error(e),
            },
            value matches HostValue::Bytes(b) ==> (size matches Ok(n) ==> n == size_of::<
                HostValue,
            >() + b@.len()),
            value matches HostValue::Bytes(b) ==> (b@.len() > self.max_result_bytes ==> size is Err),
    {
        proof {
            if let HostValue::Bytes(b) = value {
                lemma_bytes_size(b@, *self, self.max_result_bytes);
            }
        }
        self.bounded_value_size(value, self.max_result_bytes)
    }

    fn bounded_value_size(&self, value: &HostValue, max_bytes: usize) -> (size: Result<
        usize,
        HostError,
    >)
        ensures
            match bounded_size(value@, *self, max_bytes) {
                Some(n) => size matches Ok(s) && s == n,
                None => size matches Err(e) && is_exceeded_error(e),
            },
    {
        let mut budget = ValueBudget {
            max_depth: self.max_depth,
            max_nodes: self.max_nodes,
            max_bytes,
            nodes: 0,
            bytes: 0,
        };
        budget.host(value, 0)?;
        Ok(budget.bytes)
    }
}

} // verus!
