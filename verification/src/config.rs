//! Service, publisher and subscriber configuration, with the defaults that
//! apply where a setting is left out.

use crate::error::{error_text, BridgeError};
use crate::text::{bool_text, bool_to_text, decimal, usize_text};
use vstd::prelude::*;
use vstd::string::*;

verus! {

/// Settings of a service. A setting that is present becomes an attribute that
/// every participant of the service must agree on.
#[derive(Clone, Copy, Debug)]
pub struct PyServiceConfig {
    pub payload_alignment: Option<usize>,
    pub enable_safe_overflow: Option<bool>,
    pub subscriber_max_borrowed_samples: Option<usize>,
    pub history_size: Option<usize>,
    pub subscriber_max_buffer_size: Option<usize>,
    pub max_subscribers: Option<usize>,
    pub max_publishers: Option<usize>,
    pub max_nodes: Option<usize>,
}

/// A service configuration with every setting left out.
pub open spec fn empty_service_config() -> PyServiceConfig {
    PyServiceConfig {
        payload_alignment: None,
        enable_safe_overflow: None,
        subscriber_max_borrowed_samples: None,
        history_size: None,
        subscriber_max_buffer_size: None,
        max_subscribers: None,
        max_publishers: None,
        max_nodes: None,
    }
}

impl Default for PyServiceConfig {
    fn default() -> (c: Self)
        ensures
            c == empty_service_config(),
    {
        PyServiceConfig {
            payload_alignment: None,
            enable_safe_overflow: None,
            subscriber_max_borrowed_samples: None,
            history_size: None,
            subscriber_max_buffer_size: None,
            max_subscribers: None,
            max_publishers: None,
            max_nodes: None,
        }
    }
}

/// The requirement that a numeric setting `value` under `key` stands for:
/// one key-value pair with the value in decimal, or none when it is left out.
pub open spec fn usize_requirement(key: Seq<char>, value: Option<usize>) -> Seq<(Seq<char>, Seq<char>)> {
    match value {
        Some(v) => seq![(key, decimal(v as nat))],
        None => Seq::empty(),
    }
}

/// The requirement that a boolean setting `value` under `key` stands for.
pub open spec fn bool_requirement(key: Seq<char>, value: Option<bool>) -> Seq<(Seq<char>, Seq<char>)> {
    match value {
        Some(v) => seq![(key, bool_text(v))],
        None => Seq::empty(),
    }
}

/// The attribute requirements of a service configuration, in the order of its
/// settings: each setting that is present, under the setting's name, with its
/// value rendered as text.
pub open spec fn service_requirements(c: PyServiceConfig) -> Seq<(Seq<char>, Seq<char>)> {
    usize_requirement("payload_alignment"@, c.payload_alignment)
        + bool_requirement("enable_safe_overflow"@, c.enable_safe_overflow)
        + usize_requirement("subscriber_max_borrowed_samples"@, c.subscriber_max_borrowed_samples)
        + usize_requirement("history_size"@, c.history_size)
        + usize_requirement("subscriber_max_buffer_size"@, c.subscriber_max_buffer_size)
        + usize_requirement("max_subscribers"@, c.max_subscribers)
        + usize_requirement("max_publishers"@, c.max_publishers)
        + usize_requirement("max_nodes"@, c.max_nodes)
}

/// No two of `reqs` are under the same key.
pub open spec fn keys_distinct(reqs: Seq<(Seq<char>, Seq<char>)>) -> bool {
    forall|i: int, j: int| 0 <= i < j < reqs.len() ==> #[trigger] reqs[i].0 != #[trigger] reqs[j].0
}

/// Every key of `reqs` is one of `keys`.
pub open spec fn keys_within(reqs: Seq<(Seq<char>, Seq<char>)>, keys: Set<Seq<char>>) -> bool {
    forall|i: int| 0 <= i < reqs.len() ==> keys.contains(#[trigger] reqs[i].0)
}

proof fn lemma_append_key(
    a: Seq<(Seq<char>, Seq<char>)>,
    b: Seq<(Seq<char>, Seq<char>)>,
    ka: Set<Seq<char>>,
    k: Seq<char>,
)
    requires
        keys_distinct(a),
        keys_within(a, ka),
        b.len() <= 1,
        keys_within(b, set![k]),
        !ka.contains(k),
    ensures
        keys_distinct(a + b),
        keys_within(a + b, ka.insert(k)),
{
    let ab = a + b;
    assert forall|i: int, j: int| 0 <= i < j < ab.len() implies #[trigger] ab[i].0 != #[trigger] ab[j].0 by {
        assert(ab[i] == a[i]);
        if j < a.len() {
            assert(ab[j] == a[j]);
        } else {
            assert(ab[j] == b[j - a.len()]);
            assert(ka.contains(a[i].0));
            assert(set![k].contains(b[j - a.len()].0));
        }
    }
    assert forall|i: int| 0 <= i < ab.len() implies ka.insert(k).contains(#[trigger] ab[i].0) by {
        if i < a.len() {
            assert(ab[i] == a[i]);
        } else {
            assert(ab[i] == b[i - a.len()]);
            assert(set![k].contains(b[i - a.len()].0));
        }
    }
}

proof fn lemma_usize_requirement_keys(key: Seq<char>, value: Option<usize>)
    ensures
        usize_requirement(key, value).len() <= 1,
        keys_within(usize_requirement(key, value), set![key]),
        keys_distinct(usize_requirement(key, value)),
{
}

proof fn lemma_bool_requirement_keys(key: Seq<char>, value: Option<bool>)
    ensures
        bool_requirement(key, value).len() <= 1,
        keys_within(bool_requirement(key, value), set![key]),
        keys_distinct(bool_requirement(key, value)),
{
}

/// The requirements of a service configuration name each setting at most
/// once: no two of them are under the same key.
pub proof fn lemma_requirement_keys_distinct(c: PyServiceConfig)
    ensures
        keys_distinct(service_requirements(c)),
{
    let n1 = "payload_alignment"@;
    let n2 = "enable_safe_overflow"@;
    let n3 = "subscriber_max_borrowed_samples"@;
    let n4 = "history_size"@;
    let n5 = "subscriber_max_buffer_size"@;
    let n6 = "max_subscribers"@;
    let n7 = "max_publishers"@;
    let n8 = "max_nodes"@;
    reveal_strlit("payload_alignment");
    reveal_strlit("enable_safe_overflow");
    reveal_strlit("subscriber_max_borrowed_samples");
    reveal_strlit("history_size");
    reveal_strlit("subscriber_max_buffer_size");
    reveal_strlit("max_subscribers");
    reveal_strlit("max_publishers");
    reveal_strlit("max_nodes");
    assert(n1.len() == 17 && n2.len() == 20 && n3.len() == 31 && n4.len() == 12);
    assert(n5.len() == 26 && n6.len() == 15 && n7.len() == 14 && n8.len() == 9);
    let r1 = usize_requirement(n1, c.payload_alignment);
    let r2 = bool_requirement(n2, c.enable_safe_overflow);
    let r3 = usize_requirement(n3, c.subscriber_max_borrowed_samples);
    let r4 = usize_requirement(n4, c.history_size);
    let r5 = usize_requirement(n5, c.subscriber_max_buffer_size);
    let r6 = usize_requirement(n6, c.max_subscribers);
    let r7 = usize_requirement(n7, c.max_publishers);
    let r8 = usize_requirement(n8, c.max_nodes);
    lemma_usize_requirement_keys(n1, c.payload_alignment);
    lemma_bool_requirement_keys(n2, c.enable_safe_overflow);
    lemma_usize_requirement_keys(n3, c.subscriber_max_borrowed_samples);
    lemma_usize_requirement_keys(n4, c.history_size);
    lemma_usize_requirement_keys(n5, c.subscriber_max_buffer_size);
    lemma_usize_requirement_keys(n6, c.max_subscribers);
    lemma_usize_requirement_keys(n7, c.max_publishers);
    lemma_usize_requirement_keys(n8, c.max_nodes);
    let k1 = set![n1];
    let k2 = k1.insert(n2);
    let k3 = k2.insert(n3);
    let k4 = k3.insert(n4);
    let k5 = k4.insert(n5);
    let k6 = k5.insert(n6);
    let k7 = k6.insert(n7);
    lemma_append_key(r1, r2, k1, n2);
    lemma_append_key(r1 + r2, r3, k2, n3);
    lemma_append_key(r1 + r2 + r3, r4, k3, n4);
    lemma_append_key(r1 + r2 + r3 + r4, r5, k4, n5);
    lemma_append_key(r1 + r2 + r3 + r4 + r5, r6, k5, n6);
    lemma_append_key(r1 + r2 + r3 + r4 + r5 + r6, r7, k6, n7);
    lemma_append_key(r1 + r2 + r3 + r4 + r5 + r6 + r7, r8, k7, n8);
}

/// Some requirement of `reqs` is under `key`.
pub open spec fn has_key(reqs: Seq<(Seq<char>, Seq<char>)>, key: Seq<char>) -> bool {
    exists|i: int| 0 <= i < reqs.len() && #[trigger] reqs[i].0 == key
}

/// The number of settings of `c` that are present.
pub open spec fn present_settings(c: PyServiceConfig) -> nat {
    (if c.payload_alignment is Some { 1nat } else { 0nat })
        + (if c.enable_safe_overflow is Some { 1nat } else { 0nat })
        + (if c.subscriber_max_borrowed_samples is Some { 1nat } else { 0nat })
        + (if c.history_size is Some { 1nat } else { 0nat })
        + (if c.subscriber_max_buffer_size is Some { 1nat } else { 0nat })
        + (if c.max_subscribers is Some { 1nat } else { 0nat })
        + (if c.max_publishers is Some { 1nat } else { 0nat })
        + (if c.max_nodes is Some { 1nat } else { 0nat })
}

proof fn lemma_contains_concat(a: Seq<(Seq<char>, Seq<char>)>, b: Seq<(Seq<char>, Seq<char>)>, p: (Seq<char>, Seq<char>))
    ensures
        a.contains(p) ==> (a + b).contains(p),
        b.contains(p) ==> (a + b).contains(p),
{
    if a.contains(p) {
        let i = choose|i: int| 0 <= i < a.len() && a[i] == p;
        assert((a + b)[i] == a[i]);
    }
    if b.contains(p) {
        let i = choose|i: int| 0 <= i < b.len() && b[i] == p;
        assert((a + b)[a.len() + i] == b[i]);
    }
}

proof fn lemma_has_key_concat(a: Seq<(Seq<char>, Seq<char>)>, b: Seq<(Seq<char>, Seq<char>)>, k: Seq<char>)
    ensures
        has_key(a + b, k) ==> has_key(a, k) || has_key(b, k),
{
    if has_key(a + b, k) {
        let i = choose|i: int| 0 <= i < (a + b).len() && #[trigger] (a + b)[i].0 == k;
        if i < a.len() {
            assert(a[i] == (a + b)[i]);
        } else {
            assert(b[i - a.len()] == (a + b)[i]);
        }
    }
}

proof fn lemma_usize_requirement_has(key: Seq<char>, value: Option<usize>, k: Seq<char>)
    ensures
        has_key(usize_requirement(key, value), k) ==> k == key,
        value matches Some(v) ==> usize_requirement(key, value).contains((key, decimal(v as nat))),
        value is None ==> !has_key(usize_requirement(key, value), k),
        usize_requirement(key, value).len() == if value is Some { 1nat } else { 0nat },
{
    if let Some(v) = value {
        assert(usize_requirement(key, value)[0] == (key, decimal(v as nat)));
    }
}

proof fn lemma_bool_requirement_has(key: Seq<char>, value: Option<bool>, k: Seq<char>)
    ensures
        has_key(bool_requirement(key, value), k) ==> k == key,
        value matches Some(v) ==> bool_requirement(key, value).contains((key, if v { "true"@ } else { "false"@ })),
        value is None ==> !has_key(bool_requirement(key, value), k),
        bool_requirement(key, value).len() == if value is Some { 1nat } else { 0nat },
{
    if let Some(v) = value {
        assert(bool_requirement(key, value)[0] == (key, if v { "true"@ } else { "false"@ }));
    }
}

/// The eight parts of the requirements of `c`, one per setting.
spec fn requirement_parts(c: PyServiceConfig) -> Seq<Seq<(Seq<char>, Seq<char>)>> {
    seq![
        usize_requirement("payload_alignment"@, c.payload_alignment),
        bool_requirement("enable_safe_overflow"@, c.enable_safe_overflow),
        usize_requirement("subscriber_max_borrowed_samples"@, c.subscriber_max_borrowed_samples),
        usize_requirement("history_size"@, c.history_size),
        usize_requirement("subscriber_max_buffer_size"@, c.subscriber_max_buffer_size),
        usize_requirement("max_subscribers"@, c.max_subscribers),
        usize_requirement("max_publishers"@, c.max_publishers),
        usize_requirement("max_nodes"@, c.max_nodes),
    ]
}

/// The first `n` parts of the requirements, joined.
spec fn joined(parts: Seq<Seq<(Seq<char>, Seq<char>)>>, n: int) -> Seq<(Seq<char>, Seq<char>)>
    decreases n,
{
    if n <= 0 {
        Seq::empty()
    } else {
        joined(parts, n - 1) + parts[n - 1]
    }
}

proof fn lemma_parts_join(c: PyServiceConfig)
    ensures
        joined(requirement_parts(c), 8) =~= service_requirements(c),
{
    let ps = requirement_parts(c);
    assert(joined(ps, 0) == Seq::<(Seq<char>, Seq<char>)>::empty());
    assert(joined(ps, 1) == joined(ps, 0) + ps[0]);
    assert(joined(ps, 1) =~= ps[0]);
    assert(joined(ps, 2) == joined(ps, 1) + ps[1]);
    assert(joined(ps, 3) == joined(ps, 2) + ps[2]);
    assert(joined(ps, 4) == joined(ps, 3) + ps[3]);
    assert(joined(ps, 5) == joined(ps, 4) + ps[4]);
    assert(joined(ps, 6) == joined(ps, 5) + ps[5]);
    assert(joined(ps, 7) == joined(ps, 6) + ps[6]);
    assert(joined(ps, 8) == joined(ps, 7) + ps[7]);
}

proof fn lemma_joined_contains(ps: Seq<Seq<(Seq<char>, Seq<char>)>>, n: int, j: int, p: (Seq<char>, Seq<char>))
    requires
        0 <= j < n,
        ps[j].contains(p),
    ensures
        joined(ps, n).contains(p),
    decreases n,
{
    if j == n - 1 {
        lemma_contains_concat(joined(ps, n - 1), ps[n - 1], p);
    } else {
        lemma_joined_contains(ps, n - 1, j, p);
        lemma_contains_concat(joined(ps, n - 1), ps[n - 1], p);
    }
}

proof fn lemma_joined_has_key(ps: Seq<Seq<(Seq<char>, Seq<char>)>>, n: int, k: Seq<char>)
    requires
        forall|j: int| 0 <= j < n ==> !has_key(#[trigger] ps[j], k),
    ensures
        !has_key(joined(ps, n), k),
    decreases n,
{
    if n > 0 {
        lemma_joined_has_key(ps, n - 1, k);
        lemma_has_key_concat(joined(ps, n - 1), ps[n - 1], k);
    }
}

proof fn lemma_setting_names_distinct()
    ensures
        "payload_alignment"@.len() == 17,
        "enable_safe_overflow"@.len() == 20,
        "subscriber_max_borrowed_samples"@.len() == 31,
        "history_size"@.len() == 12,
        "subscriber_max_buffer_size"@.len() == 26,
        "max_subscribers"@.len() == 15,
        "max_publishers"@.len() == 14,
        "max_nodes"@.len() == 9,
{
    reveal_strlit("payload_alignment");
    reveal_strlit("enable_safe_overflow");
    reveal_strlit("subscriber_max_borrowed_samples");
    reveal_strlit("history_size");
    reveal_strlit("subscriber_max_buffer_size");
    reveal_strlit("max_subscribers");
    reveal_strlit("max_publishers");
    reveal_strlit("max_nodes");
}

proof fn lemma_parts_facts(c: PyServiceConfig, k: Seq<char>)
    ensures
        forall|j: int| 0 <= j < 8 && has_key(#[trigger] requirement_parts(c)[j], k) ==> k == setting_name(j),
        forall|j: int| 0 <= j < 8 && !setting_present(c, j) ==> !has_key(#[trigger] requirement_parts(c)[j], k),
{
    lemma_usize_requirement_has("payload_alignment"@, c.payload_alignment, k);
    lemma_bool_requirement_has("enable_safe_overflow"@, c.enable_safe_overflow, k);
    lemma_usize_requirement_has("subscriber_max_borrowed_samples"@, c.subscriber_max_borrowed_samples, k);
    lemma_usize_requirement_has("history_size"@, c.history_size, k);
    lemma_usize_requirement_has("subscriber_max_buffer_size"@, c.subscriber_max_buffer_size, k);
    lemma_usize_requirement_has("max_subscribers"@, c.max_subscribers, k);
    lemma_usize_requirement_has("max_publishers"@, c.max_publishers, k);
    lemma_usize_requirement_has("max_nodes"@, c.max_nodes, k);
    let ps = requirement_parts(c);
    assert(ps[0] == usize_requirement("payload_alignment"@, c.payload_alignment));
    assert(ps[1] == bool_requirement("enable_safe_overflow"@, c.enable_safe_overflow));
    assert(ps[2] == usize_requirement("subscriber_max_borrowed_samples"@, c.subscriber_max_borrowed_samples));
    assert(ps[3] == usize_requirement("history_size"@, c.history_size));
    assert(ps[4] == usize_requirement("subscriber_max_buffer_size"@, c.subscriber_max_buffer_size));
    assert(ps[5] == usize_requirement("max_subscribers"@, c.max_subscribers));
    assert(ps[6] == usize_requirement("max_publishers"@, c.max_publishers));
    assert(ps[7] == usize_requirement("max_nodes"@, c.max_nodes));
}

/// The name of setting `j`, in the order of the settings.
spec fn setting_name(j: int) -> Seq<char> {
    if j == 0 { "payload_alignment"@ }
    else if j == 1 { "enable_safe_overflow"@ }
    else if j == 2 { "subscriber_max_borrowed_samples"@ }
    else if j == 3 { "history_size"@ }
    else if j == 4 { "subscriber_max_buffer_size"@ }
    else if j == 5 { "max_subscribers"@ }
    else if j == 6 { "max_publishers"@ }
    else { "max_nodes"@ }
}

/// Whether setting `j` of `c` is present.
spec fn setting_present(c: PyServiceConfig, j: int) -> bool {
    if j == 0 { c.payload_alignment is Some }
    else if j == 1 { c.enable_safe_overflow is Some }
    else if j == 2 { c.subscriber_max_borrowed_samples is Some }
    else if j == 3 { c.history_size is Some }
    else if j == 4 { c.subscriber_max_buffer_size is Some }
    else if j == 5 { c.max_subscribers is Some }
    else if j == 6 { c.max_publishers is Some }
    else { c.max_nodes is Some }
}

proof fn lemma_absent_key(c: PyServiceConfig, j: int)
    requires
        0 <= j < 8,
        !setting_present(c, j),
    ensures
        !has_key(service_requirements(c), setting_name(j)),
{
    let k = setting_name(j);
    let ps = requirement_parts(c);
    lemma_setting_names_distinct();
    lemma_parts_facts(c, k);
    assert forall|i: int| 0 <= i < 8 implies !has_key(#[trigger] ps[i], k) by {
        if i != j && has_key(ps[i], k) {
            assert(setting_name(i).len() != setting_name(j).len());
        }
    }
    lemma_joined_has_key(ps, 8, k);
    lemma_parts_join(c);
}

/// The requirements of a service configuration are one per present setting:
/// a present numeric setting is required under its name with its value in
/// decimal, a present flag under its name as `true` or `false`, and no
/// requirement is under the name of a setting that is left out.
pub proof fn lemma_requirements_reflect_settings(c: PyServiceConfig)
    ensures
        service_requirements(c).len() == present_settings(c),
        c.payload_alignment matches Some(v) ==> service_requirements(c).contains(("payload_alignment"@, decimal(v as nat))),
        c.enable_safe_overflow matches Some(v) ==> service_requirements(c).contains(("enable_safe_overflow"@, if v { "true"@ } else { "false"@ })),
        c.subscriber_max_borrowed_samples matches Some(v) ==> service_requirements(c).contains(("subscriber_max_borrowed_samples"@, decimal(v as nat))),
        c.history_size matches Some(v) ==> service_requirements(c).contains(("history_size"@, decimal(v as nat))),
        c.subscriber_max_buffer_size matches Some(v) ==> service_requirements(c).contains(("subscriber_max_buffer_size"@, decimal(v as nat))),
        c.max_subscribers matches Some(v) ==> service_requirements(c).contains(("max_subscribers"@, decimal(v as nat))),
        c.max_publishers matches Some(v) ==> service_requirements(c).contains(("max_publishers"@, decimal(v as nat))),
        c.max_nodes matches Some(v) ==> service_requirements(c).contains(("max_nodes"@, decimal(v as nat))),
        c.payload_alignment is None ==> !has_key(service_requirements(c), "payload_alignment"@),
        c.enable_safe_overflow is None ==> !has_key(service_requirements(c), "enable_safe_overflow"@),
        c.subscriber_max_borrowed_samples is None ==> !has_key(service_requirements(c), "subscriber_max_borrowed_samples"@),
        c.history_size is None ==> !has_key(service_requirements(c), "history_size"@),
        c.subscriber_max_buffer_size is None ==> !has_key(service_requirements(c), "subscriber_max_buffer_size"@),
        c.max_subscribers is None ==> !has_key(service_requirements(c), "max_subscribers"@),
        c.max_publishers is None ==> !has_key(service_requirements(c), "max_publishers"@),
        c.max_nodes is None ==> !has_key(service_requirements(c), "max_nodes"@),
{
    let ps = requirement_parts(c);
    lemma_parts_join(c);
    let e = Seq::<char>::empty();
    lemma_parts_facts(c, e);
    lemma_usize_requirement_has("payload_alignment"@, c.payload_alignment, e);
    lemma_bool_requirement_has("enable_safe_overflow"@, c.enable_safe_overflow, e);
    lemma_usize_requirement_has("subscriber_max_borrowed_samples"@, c.subscriber_max_borrowed_samples, e);
    lemma_usize_requirement_has("history_size"@, c.history_size, e);
    lemma_usize_requirement_has("subscriber_max_buffer_size"@, c.subscriber_max_buffer_size, e);
    lemma_usize_requirement_has("max_subscribers"@, c.max_subscribers, e);
    lemma_usize_requirement_has("max_publishers"@, c.max_publishers, e);
    lemma_usize_requirement_has("max_nodes"@, c.max_nodes, e);
    assert(joined(ps, 0).len() == 0);
    assert(joined(ps, 8).len() == present_settings(c));
    if let Some(v) = c.payload_alignment {
        lemma_joined_contains(ps, 8, 0, ("payload_alignment"@, decimal(v as nat)));
    }
    if let Some(v) = c.enable_safe_overflow {
        lemma_joined_contains(ps, 8, 1, ("enable_safe_overflow"@, if v { "true"@ } else { "false"@ }));
    }
    if let Some(v) = c.subscriber_max_borrowed_samples {
        lemma_joined_contains(ps, 8, 2, ("subscriber_max_borrowed_samples"@, decimal(v as nat)));
    }
    if let Some(v) = c.history_size {
        lemma_joined_contains(ps, 8, 3, ("history_size"@, decimal(v as nat)));
    }
    if let Some(v) = c.subscriber_max_buffer_size {
        lemma_joined_contains(ps, 8, 4, ("subscriber_max_buffer_size"@, decimal(v as nat)));
    }
    if let Some(v) = c.max_subscribers {
        lemma_joined_contains(ps, 8, 5, ("max_subscribers"@, decimal(v as nat)));
    }
    if let Some(v) = c.max_publishers {
        lemma_joined_contains(ps, 8, 6, ("max_publishers"@, decimal(v as nat)));
    }
    if let Some(v) = c.max_nodes {
        lemma_joined_contains(ps, 8, 7, ("max_nodes"@, decimal(v as nat)));
    }
    if c.payload_alignment is None { lemma_absent_key(c, 0); }
    if c.enable_safe_overflow is None { lemma_absent_key(c, 1); }
    if c.subscriber_max_borrowed_samples is None { lemma_absent_key(c, 2); }
    if c.history_size is None { lemma_absent_key(c, 3); }
    if c.subscriber_max_buffer_size is None { lemma_absent_key(c, 4); }
    if c.max_subscribers is None { lemma_absent_key(c, 5); }
    if c.max_publishers is None { lemma_absent_key(c, 6); }
    if c.max_nodes is None { lemma_absent_key(c, 7); }
}

fn push_usize_requirement(reqs: &mut Vec<(String, String)>, key: &str, value: Option<usize>)
    ensures
        final(reqs).deep_view() == old(reqs).deep_view() + usize_requirement(key@, value),
{
    if let Some(v) = value {
        let ghost before = reqs.deep_view();
        reqs.push((String::from_str(key), usize_text(v)));
        assert(reqs.deep_view() =~= before + usize_requirement(key@, value));
    } else {
        assert(reqs.deep_view() =~= reqs.deep_view() + usize_requirement(key@, value));
    }
}

fn push_bool_requirement(reqs: &mut Vec<(String, String)>, key: &str, value: Option<bool>)
    ensures
        final(reqs).deep_view() == old(reqs).deep_view() + bool_requirement(key@, value),
{
    if let Some(v) = value {
        let ghost before = reqs.deep_view();
        reqs.push((String::from_str(key), bool_to_text(v)));
        assert(reqs.deep_view() =~= before + bool_requirement(key@, value));
    } else {
        assert(reqs.deep_view() =~= reqs.deep_view() + bool_requirement(key@, value));
    }
}

impl PyServiceConfig {
    /// The key-value pairs that a service opened with this configuration
    /// requires of its attributes.
    pub fn requirements(&self) -> (reqs: Vec<(String, String)>)
        ensures
            reqs.deep_view() == service_requirements(*self),
    {
        let mut reqs: Vec<(String, String)> = Vec::new();
        push_usize_requirement(&mut reqs, "payload_alignment", self.payload_alignment);
        push_bool_requirement(&mut reqs, "enable_safe_overflow", self.enable_safe_overflow);
        push_usize_requirement(&mut reqs, "subscriber_max_borrowed_samples", self.subscriber_max_borrowed_samples);
        push_usize_requirement(&mut reqs, "history_size", self.history_size);
        push_usize_requirement(&mut reqs, "subscriber_max_buffer_size", self.subscriber_max_buffer_size);
        push_usize_requirement(&mut reqs, "max_subscribers", self.max_subscribers);
        push_usize_requirement(&mut reqs, "max_publishers", self.max_publishers);
        push_usize_requirement(&mut reqs, "max_nodes", self.max_nodes);
        assert(reqs.deep_view() =~= service_requirements(*self));
        reqs
    }
}


/// How a publisher grows its memory when a loan needs more than it has.
#[derive(Clone, Copy, Debug, PartialEq, Eq, Structural)]
pub enum AllocationStrategy {
    /// Grows to exactly what is needed.
    BestFit,
    /// Grows to the next power of two.
    PowerOfTwo,
    /// Does not grow.
    Static,
}

/// What a publisher does when a subscriber's buffer is full.
#[derive(Clone, Copy, Debug, PartialEq, Eq, Structural)]
pub enum UnableToDeliverStrategy {
    /// Waits until the subscriber has room.
    Block,
    /// Drops the sample for that subscriber.
    DiscardSample,
}

/// Settings of a publisher port.
#[derive(Clone, Debug)]
pub struct PyPublisherConfig {
    pub initial_max_slice_len: Option<usize>,
    pub allocation_strategy: Option<String>,
    pub unable_to_deliver_strategy: Option<String>,
    pub max_loaned_samples: Option<usize>,
}

/// Settings of a subscriber port.
#[derive(Clone, Copy, Debug)]
pub struct PySubscriberConfig {
    pub buffer_size: Option<usize>,
}

/// The slice length that a publisher starts with when none is configured.
pub const DEFAULT_INITIAL_MAX_SLICE_LEN: usize = 512;

/// The number of samples a publisher may loan at once when none is configured.
pub const DEFAULT_MAX_LOANED_SAMPLES: usize = 10;

/// The buffer size of a subscriber when none is configured.
pub const DEFAULT_BUFFER_SIZE: usize = 1;

/// The name of a strategy that stands where the configuration names none.
pub open spec fn default_strategy_name() -> Seq<char> {
    "static"@
}

/// The strategy name that a configured `name` amounts to.
pub open spec fn strategy_name(name: Option<String>) -> Seq<char> {
    match name {
        Some(s) => s@,
        None => default_strategy_name(),
    }
}

/// The allocation strategy that `name` denotes, if any.
pub open spec fn allocation_strategy_named(name: Seq<char>) -> Option<AllocationStrategy> {
    if name == "static"@ {
        Some(AllocationStrategy::Static)
    } else if name == "best_fit"@ {
        Some(AllocationStrategy::BestFit)
    } else if name == "power_of_two"@ {
        Some(AllocationStrategy::PowerOfTwo)
    } else {
        None
    }
}

/// The unable-to-deliver strategy that `name` denotes, if any.
pub open spec fn unable_to_deliver_strategy_named(name: Seq<char>) -> Option<UnableToDeliverStrategy> {
    if name == "block"@ {
        Some(UnableToDeliverStrategy::Block)
    } else if name == "discard_sample"@ {
        Some(UnableToDeliverStrategy::DiscardSample)
    } else {
        None
    }
}

/// What the publisher configuration `c` yields as allocation strategy: the
/// strategy its name denotes, or the error that reports the name.
pub open spec fn allocation_strategy_of(c: PyPublisherConfig, r: Result<AllocationStrategy, BridgeError>) -> bool {
    let name = strategy_name(c.allocation_strategy);
    match allocation_strategy_named(name) {
        Some(a) => r == Ok::<AllocationStrategy, BridgeError>(a),
        None => r matches Err(BridgeError::UnknownAllocationStrategy(s)) && s@ == name,
    }
}

/// What the publisher configuration `c` yields as unable-to-deliver strategy.
pub open spec fn unable_to_deliver_strategy_of(
    c: PyPublisherConfig,
    r: Result<UnableToDeliverStrategy, BridgeError>,
) -> bool {
    let name = strategy_name(c.unable_to_deliver_strategy);
    match unable_to_deliver_strategy_named(name) {
        Some(u) => r == Ok::<UnableToDeliverStrategy, BridgeError>(u),
        None => r matches Err(BridgeError::UnknownUnableToDeliverStrategy(s)) && s@ == name,
    }
}

proof fn lemma_strategy_names_distinct()
    ensures
        "static"@ != "best_fit"@,
        "static"@ != "power_of_two"@,
        "best_fit"@ != "power_of_two"@,
        "block"@ != "discard_sample"@,
        "block"@ != "static"@,
        "discard_sample"@ != "static"@,
{
    reveal_strlit("static");
    reveal_strlit("best_fit");
    reveal_strlit("power_of_two");
    reveal_strlit("block");
    reveal_strlit("discard_sample");
    assert("static"@.len() == 6 && "best_fit"@.len() == 8 && "power_of_two"@.len() == 12);
    assert("block"@.len() == 5 && "discard_sample"@.len() == 14);
}

/// Each allocation strategy is chosen by its own name and by no other: the
/// name `static` (also the name where none is configured) gives `Static`,
/// `best_fit` gives `BestFit`, `power_of_two` gives `PowerOfTwo`, and every
/// other name is refused with an error that carries the name.
pub proof fn lemma_allocation_strategy_by_name(c: PyPublisherConfig, r: Result<AllocationStrategy, BridgeError>)
    requires
        allocation_strategy_of(c, r),
    ensures
        c.allocation_strategy is None ==> r == Ok::<AllocationStrategy, BridgeError>(AllocationStrategy::Static),
        r == Ok::<AllocationStrategy, BridgeError>(AllocationStrategy::Static) <==> strategy_name(c.allocation_strategy) == "static"@,
        r == Ok::<AllocationStrategy, BridgeError>(AllocationStrategy::BestFit) <==> strategy_name(c.allocation_strategy) == "best_fit"@,
        r == Ok::<AllocationStrategy, BridgeError>(AllocationStrategy::PowerOfTwo) <==> strategy_name(c.allocation_strategy) == "power_of_two"@,
        r is Err <==> (strategy_name(c.allocation_strategy) != "static"@
            && strategy_name(c.allocation_strategy) != "best_fit"@
            && strategy_name(c.allocation_strategy) != "power_of_two"@),
        r is Err ==> (r matches Err(BridgeError::UnknownAllocationStrategy(s)) && s@ == strategy_name(c.allocation_strategy)),
{
    lemma_strategy_names_distinct();
}

/// The allocation strategy depends on the configured allocation strategy
/// name alone: two configurations that agree on it yield the same.
pub proof fn lemma_allocation_strategy_depends_on_its_name(
    c1: PyPublisherConfig,
    c2: PyPublisherConfig,
    r1: Result<AllocationStrategy, BridgeError>,
    r2: Result<AllocationStrategy, BridgeError>,
)
    requires
        c1.allocation_strategy == c2.allocation_strategy,
        allocation_strategy_of(c1, r1),
        allocation_strategy_of(c2, r2),
    ensures
        r1 is Ok <==> r2 is Ok,
        r1 is Ok ==> r1 == r2,
        r1 is Err ==> error_text(r1->Err_0) == error_text(r2->Err_0),
{
    lemma_allocation_strategy_by_name(c1, r1);
    lemma_allocation_strategy_by_name(c2, r2);
}

/// Each unable-to-deliver strategy is chosen by its own name and by no
/// other: `block` gives `Block`, `discard_sample` gives `DiscardSample`, and
/// every other name, the `static` that stands where none is configured among
/// them, is refused with an error that carries the name.
pub proof fn lemma_unable_to_deliver_strategy_by_name(
    c: PyPublisherConfig,
    r: Result<UnableToDeliverStrategy, BridgeError>,
)
    requires
        unable_to_deliver_strategy_of(c, r),
    ensures
        r == Ok::<UnableToDeliverStrategy, BridgeError>(UnableToDeliverStrategy::Block)
            <==> strategy_name(c.unable_to_deliver_strategy) == "block"@,
        r == Ok::<UnableToDeliverStrategy, BridgeError>(UnableToDeliverStrategy::DiscardSample)
            <==> strategy_name(c.unable_to_deliver_strategy) == "discard_sample"@,
        r is Err <==> (strategy_name(c.unable_to_deliver_strategy) != "block"@
            && strategy_name(c.unable_to_deliver_strategy) != "discard_sample"@),
        r is Err ==> (r matches Err(BridgeError::UnknownUnableToDeliverStrategy(s))
            && s@ == strategy_name(c.unable_to_deliver_strategy)),
        c.unable_to_deliver_strategy is None ==> r is Err,
{
    lemma_strategy_names_distinct();
}

fn configured_name(name: &Option<String>) -> (s: String)
    ensures
        s@ == strategy_name(*name),
{
    match name {
        Some(s) => s.clone(),
        None => String::from_str("static"),
    }
}

/// A publisher configuration with every setting left out.
pub open spec fn empty_publisher_config() -> PyPublisherConfig {
    PyPublisherConfig {
        initial_max_slice_len: None,
        allocation_strategy: None,
        unable_to_deliver_strategy: None,
        max_loaned_samples: None,
    }
}

impl Default for PyPublisherConfig {
    fn default() -> (c: Self)
        ensures
            c == empty_publisher_config(),
    {
        PyPublisherConfig {
            initial_max_slice_len: None,
            allocation_strategy: None,
            unable_to_deliver_strategy: None,
            max_loaned_samples: None,
        }
    }
}

impl PyPublisherConfig {
    /// The configured initial slice length, 512 where none is configured.
    pub fn initial_max_slice_len(&self) -> (n: usize)
        ensures
            n == self.initial_max_slice_len.unwrap_or(DEFAULT_INITIAL_MAX_SLICE_LEN),
            n == self.initial_max_slice_len.unwrap_or(512),
    {
        self.initial_max_slice_len.unwrap_or(DEFAULT_INITIAL_MAX_SLICE_LEN)
    }

    /// The configured allocation strategy: `static`, `best_fit` or
    /// `power_of_two`, `static` where none is configured; any other name is
    /// an error that reports it.
    pub fn allocation_strategy(&self) -> (r: Result<AllocationStrategy, BridgeError>)
        ensures
            allocation_strategy_of(*self, r),
            self.allocation_strategy is None ==> r == Ok::<AllocationStrategy, BridgeError>(AllocationStrategy::Static),
            r == Ok::<AllocationStrategy, BridgeError>(AllocationStrategy::Static) <==> strategy_name(self.allocation_strategy) == "static"@,
            r == Ok::<AllocationStrategy, BridgeError>(AllocationStrategy::BestFit) <==> strategy_name(self.allocation_strategy) == "best_fit"@,
            r == Ok::<AllocationStrategy, BridgeError>(AllocationStrategy::PowerOfTwo) <==> strategy_name(self.allocation_strategy) == "power_of_two"@,
    {
        proof {
            lemma_strategy_names_distinct();
        }
        let strat = configured_name(&self.allocation_strategy);
        if strat == String::from_str("static") {
            Ok(AllocationStrategy::Static)
        } else if strat == String::from_str("best_fit") {
            Ok(AllocationStrategy::BestFit)
        } else if strat == String::from_str("power_of_two") {
            Ok(AllocationStrategy::PowerOfTwo)
        } else {
            Err(BridgeError::UnknownAllocationStrategy(strat))
        }
    }

    /// The configured unable-to-deliver strategy: `block` or
    /// `discard_sample`; any other name is an error that reports it. Where
    /// none is configured the name `static` stands, which is no such
    /// strategy, so that too is an error.
    pub fn unable_to_deliver_strategy(&self) -> (r: Result<UnableToDeliverStrategy, BridgeError>)
        ensures
            unable_to_deliver_strategy_of(*self, r),
            r == Ok::<UnableToDeliverStrategy, BridgeError>(UnableToDeliverStrategy::Block)
                <==> strategy_name(self.unable_to_deliver_strategy) == "block"@,
            r == Ok::<UnableToDeliverStrategy, BridgeError>(UnableToDeliverStrategy::DiscardSample)
                <==> strategy_name(self.unable_to_deliver_strategy) == "discard_sample"@,
            r is Err ==> (r matches Err(BridgeError::UnknownUnableToDeliverStrategy(s))
                && s@ == strategy_name(self.unable_to_deliver_strategy)),
            self.unable_to_deliver_strategy is None ==> (r matches Err(
                BridgeError::UnknownUnableToDeliverStrategy(s),
            ) && s@ == "static"@),
    {
        proof {
            lemma_strategy_names_distinct();
        }
        let strat = configured_name(&self.unable_to_deliver_strategy);
        if strat == String::from_str("block") {
            Ok(UnableToDeliverStrategy::Block)
        } else if strat == String::from_str("discard_sample") {
            Ok(UnableToDeliverStrategy::DiscardSample)
        } else {
            Err(BridgeError::UnknownUnableToDeliverStrategy(strat))
        }
    }

    /// The configured number of samples that may be loaned at once, 10 where
    /// none is configured.
    pub fn max_loaned_samples(&self) -> (n: usize)
        ensures
            n == self.max_loaned_samples.unwrap_or(DEFAULT_MAX_LOANED_SAMPLES),
            n == self.max_loaned_samples.unwrap_or(10),
    {
        self.max_loaned_samples.unwrap_or(DEFAULT_MAX_LOANED_SAMPLES)
    }
}

/// A subscriber configuration with every setting left out.
pub open spec fn empty_subscriber_config() -> PySubscriberConfig {
    PySubscriberConfig { buffer_size: None }
}

impl Default for PySubscriberConfig {
    fn default() -> (c: Self)
        ensures
            c == empty_subscriber_config(),
    {
        PySubscriberConfig { buffer_size: None }
    }
}

impl PySubscriberConfig {
    /// The configured buffer size, 1 where none is configured.
    pub fn buffer_size(&self) -> (n: usize)
        ensures
            n == self.buffer_size.unwrap_or(DEFAULT_BUFFER_SIZE),
            n == self.buffer_size.unwrap_or(1),
    {
        self.buffer_size.unwrap_or(DEFAULT_BUFFER_SIZE)
    }
}

} // verus!
