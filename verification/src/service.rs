//! How this process names itself in telemetry.

use crate::text::{decimal, decimal_string, lemma_decimal_digits, lemma_decimal_injective};
use vstd::prelude::*;
use vstd::string::*;

verus! {

/// The environment variables that may hold the host's name, in the order in which
/// they are consulted.
pub fn hostname_keys() -> (keys: Vec<&'static str>)
    ensures
        keys@.len() == 3,
        keys@[0]@ == "HOSTNAME"@,
        keys@[1]@ == "HOST"@,
        keys@[2]@ == "COMPUTERNAME"@,
{
    vec!["HOSTNAME", "HOST", "COMPUTERNAME"]
}

/// The values that the environment holds, as texts.
pub open spec fn values_view(values: Seq<Option<String>>) -> Seq<Option<Seq<char>>> {
    values.map_values(
        |value: Option<String>|
            match value {
                Some(text) => Some(text@),
                None => None,
            },
    )
}

/// The first value that is set and not empty.
pub open spec fn first_hostname(values: Seq<Option<Seq<char>>>) -> Option<Seq<char>>
    decreases values.len(),
{
    if values.len() == 0 {
        None
    } else {
        match values[0] {
            Some(name) if name.len() > 0 => Some(name),
            _ => first_hostname(values.drop_first()),
        }
    }
}

/// The host's name, or `pid` where none is known.
pub open spec fn instance_label(hostname: Option<Seq<char>>) -> Seq<char> {
    match hostname {
        Some(name) => name,
        None => "pid"@,
    }
}

/// `label-pid`, with the process id in decimal.
pub open spec fn instance_id(hostname: Option<Seq<char>>, pid: nat) -> Seq<char> {
    instance_label(hostname) + "-"@ + decimal(pid)
}

/// Cross-platform hostname with PID for unique instance identification.
///
/// `values` is what the environment holds for [`hostname_keys`], in that order; the
/// first value that is set and not empty is the host's name. Where there is none the
/// id begins with `pid`.
pub fn service_instance_id(values: &[Option<String>], pid: u32) -> (id: String)
    ensures
        id@ == instance_id(first_hostname(values_view(values@)), pid as nat),
{
    let ghost texts = values_view(values@);
    let mut i: usize = 0;
    assert(texts.skip(0) =~= texts);
    while i < values.len()
        invariant
            i <= values.len(),
            texts == values_view(values@),
            first_hostname(texts) == first_hostname(texts.skip(i as int)),
        decreases values.len() - i,
    {
        assert(texts.skip(i as int).drop_first() =~= texts.skip(i + 1));
        if let Some(name) = &values[i] {
            if !name.as_str().is_empty() {
                return name.clone().concat("-").concat(decimal_string(pid).as_str());
            }
        }
        i += 1;
    }
    "pid".to_owned().concat("-").concat(decimal_string(pid).as_str())
}

/// Instance ids tell instances apart: two equal ids come from the same process id
/// and the same label.
pub proof fn law_instance_id_unique(
    hostname1: Option<Seq<char>>,
    pid1: nat,
    hostname2: Option<Seq<char>>,
    pid2: nat,
)
    requires
        instance_id(hostname1, pid1) == instance_id(hostname2, pid2),
    ensures
        pid1 == pid2,
        instance_label(hostname1) == instance_label(hostname2),
{
    reveal_strlit("-");
    let id1 = instance_id(hostname1, pid1);
    let id2 = instance_id(hostname2, pid2);
    let (d1, d2) = (decimal(pid1), decimal(pid2));
    let (l1, l2) = (instance_label(hostname1), instance_label(hostname2));
    lemma_decimal_digits(pid1);
    lemma_decimal_digits(pid2);
    assert(id2.len() == l2.len() + 1 + d2.len());
    if l1.len() < l2.len() {
        assert(id1[l2.len() as int] == d1[l2.len() - l1.len() - 1]);
    } else if l2.len() < l1.len() {
        assert(id2[l1.len() as int] == d2[l1.len() - l2.len() - 1]);
    }
    assert(l2 =~= id2.take(l2.len() as int));
    assert(d1 =~= id1.skip(l1.len() as int + 1));
    assert(d2 =~= id2.skip(l2.len() as int + 1));
    lemma_decimal_injective(pid1, pid2);
}

/// An unset or empty variable is as good as absent: the host's name is the same
/// with and without it.
pub proof fn law_empty_hostname_skipped(
    before: Seq<Option<Seq<char>>>,
    skipped: Option<Seq<char>>,
    after: Seq<Option<Seq<char>>>,
)
    requires
        skipped matches Some(name) ==> name.len() == 0,
    ensures
        first_hostname(before + seq![skipped] + after) == first_hostname(before + after),
    decreases before.len(),
{
    let long = before + seq![skipped] + after;
    let short = before + after;
    if before.len() == 0 {
        assert(long.drop_first() =~= after);
    } else {
        assert(long.drop_first() =~= before.drop_first() + seq![skipped] + after);
        assert(short.drop_first() =~= before.drop_first() + after);
        law_empty_hostname_skipped(before.drop_first(), skipped, after);
    }
}

/// The first value that is neither unset nor empty is found.
proof fn lemma_first_hostname(values: Seq<Option<Seq<char>>>, i: int)
    requires
        0 <= i <= values.len(),
        forall|j: int|
            0 <= j < i ==> (#[trigger] values[j] is None || values[j]->0 == Seq::<char>::empty()),
        i < values.len() ==> values[i] is Some && values[i]->0.len() > 0,
    ensures
        first_hostname(values) == if i < values.len() {
            values[i]
        } else {
            None
        },
    decreases i,
{
    if i > 0 {
        assert(values[0] is None || values[0]->0 == Seq::<char>::empty());
        let rest = values.drop_first();
        assert forall|j: int| 0 <= j < i - 1 implies (#[trigger] rest[j] is None || rest[j]->0
            == Seq::<char>::empty()) by {
            assert(rest[j] == values[j + 1]);
        }
        lemma_first_hostname(rest, i - 1);
    }
}

/// Any host's name that is not empty is taken, and taken whole: where the value at `i` is
/// the first one that is set and not empty, the id is that value, a `-` and the process
/// id in decimal.
pub proof fn law_first_hostname_names_the_instance(
    values: &[Option<String>],
    pid: u32,
    id: String,
    i: int,
)
    requires
        call_ensures(service_instance_id, (values, pid), id),
        0 <= i < values@.len(),
        values@[i] is Some,
        values@[i]->0@.len() > 0,
        forall|j: int|
            0 <= j < i ==> (#[trigger] values@[j] is None || values@[j]->0@.len() == 0),
    ensures
        id@ == values@[i]->0@ + "-"@ + decimal(pid as nat),
{
    let texts = values_view(values@);
    assert forall|j: int| 0 <= j < i implies (#[trigger] texts[j] is None || texts[j]->0
        == Seq::<char>::empty()) by {
        assert(values@[j] is None || values@[j]->0@.len() == 0);
    }
    lemma_first_hostname(texts, i);
}

/// The process id alone names an instance only where no value is set and not empty.
pub proof fn law_nameless_instance(values: &[Option<String>], pid: u32, id: String)
    requires
        call_ensures(service_instance_id, (values, pid), id),
        forall|j: int|
            0 <= j < values@.len() ==> (#[trigger] values@[j] is None || values@[j]->0@.len() == 0),
    ensures
        id@ == "pid"@ + "-"@ + decimal(pid as nat),
{
    let texts = values_view(values@);
    assert forall|j: int| 0 <= j < texts.len() implies (#[trigger] texts[j] is None || texts[j]->0
        == Seq::<char>::empty()) by {
        assert(values@[j] is None || values@[j]->0@.len() == 0);
    }
    lemma_first_hostname(texts, texts.len() as int);
}

/// Two processes share an id only if they have the same process id and the same host's
/// name: ids of different first names differ, and so do ids of different processes.
pub proof fn law_instances_told_apart(
    values1: &[Option<String>],
    pid1: u32,
    id1: String,
    i1: int,
    values2: &[Option<String>],
    pid2: u32,
    id2: String,
    i2: int,
)
    requires
        call_ensures(service_instance_id, (values1, pid1), id1),
        call_ensures(service_instance_id, (values2, pid2), id2),
        0 <= i1 < values1@.len(),
        values1@[i1] is Some,
        values1@[i1]->0@.len() > 0,
        forall|j: int|
            0 <= j < i1 ==> (#[trigger] values1@[j] is None || values1@[j]->0@.len() == 0),
        0 <= i2 < values2@.len(),
        values2@[i2] is Some,
        values2@[i2]->0@.len() > 0,
        forall|j: int|
            0 <= j < i2 ==> (#[trigger] values2@[j] is None || values2@[j]->0@.len() == 0),
    ensures
        id1@ == id2@ <==> pid1 == pid2 && values1@[i1]->0@ == values2@[i2]->0@,
{
    law_first_hostname_names_the_instance(values1, pid1, id1, i1);
    law_first_hostname_names_the_instance(values2, pid2, id2, i2);
    if id1@ == id2@ {
        law_instance_id_unique(
            Some(values1@[i1]->0@),
            pid1 as nat,
            Some(values2@[i2]->0@),
            pid2 as nat,
        );
    }
}

} // verus!
