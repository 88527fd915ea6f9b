use vstd::prelude::*;
use vstd::string::StrSliceExecFns;
use vstd::utf8::{encode_utf8, encode_utf8_decode_utf8};
use crate::event::{BudgetEvent, BudgetTopic, Event, Fact, ProjectEvent, ProjectFact};

verus! {

/// The eight bytes of `x`, least significant first.
pub open spec fn le_bytes(x: u64) -> Seq<u8> {
    seq![
        x as u8,
        (x >> 8u64) as u8,
        (x >> 16u64) as u8,
        (x >> 24u64) as u8,
        (x >> 32u64) as u8,
        (x >> 40u64) as u8,
        (x >> 48u64) as u8,
        (x >> 56u64) as u8,
    ]
}

/// The canonical encoding of a fact: a tag byte naming its kind, its fixed-width
/// fields, and last the UTF-8 bytes of its one text field, if it has one.
pub open spec fn encode_fact(f: Fact) -> Seq<u8> {
    match f {
        Fact::Project(ProjectFact::Created { id, name, github_repo_id }) => seq![0u8] + le_bytes(
            id.value,
        ) + le_bytes(github_repo_id.value) + encode_utf8(name),
        Fact::Project(ProjectFact::LeaderAssigned { id, leader_id }) => seq![1u8] + le_bytes(
            id.value,
        ) + le_bytes(leader_id.value),
        Fact::Budget(BudgetEvent::Allocated { id, topic, amount }) => match topic {
            BudgetTopic::Project(p) => seq![2u8] + le_bytes(id.value) + seq![0u8] + le_bytes(
                p.value,
            ) + le_bytes(amount),
        },
        Fact::Budget(BudgetEvent::SpenderAssigned { id, spender_id }) => seq![3u8] + le_bytes(
            id.value,
        ) + le_bytes(spender_id.value),
    }
}

proof fn lemma_le_bytes_injective(x: u64, y: u64)
    requires
        le_bytes(x) == le_bytes(y),
    ensures
        x == y,
{
    assert(le_bytes(x)[0] == le_bytes(y)[0]);
    assert(le_bytes(x)[1] == le_bytes(y)[1]);
    assert(le_bytes(x)[2] == le_bytes(y)[2]);
    assert(le_bytes(x)[3] == le_bytes(y)[3]);
    assert(le_bytes(x)[4] == le_bytes(y)[4]);
    assert(le_bytes(x)[5] == le_bytes(y)[5]);
    assert(le_bytes(x)[6] == le_bytes(y)[6]);
    assert(le_bytes(x)[7] == le_bytes(y)[7]);
    assert(x == y) by (bit_vector)
        requires
            x as u8 == y as u8,
            (x >> 8u64) as u8 == (y >> 8u64) as u8,
            (x >> 16u64) as u8 == (y >> 16u64) as u8,
            (x >> 24u64) as u8 == (y >> 24u64) as u8,
            (x >> 32u64) as u8 == (y >> 32u64) as u8,
            (x >> 40u64) as u8 == (y >> 40u64) as u8,
            (x >> 48u64) as u8 == (y >> 48u64) as u8,
            (x >> 56u64) as u8 == (y >> 56u64) as u8,
    ;
}

/// Envelopes built from facts with the same contents carry the same identity,
/// and envelopes built from different facts never share one.
pub proof fn lemma_identity_unique(a: Fact, b: Fact)
    ensures
        (encode_fact(a) == encode_fact(b)) <==> (a == b),
{
    if encode_fact(a) == encode_fact(b) {
        let e = encode_fact(a);
        assert(encode_fact(a)[0] == encode_fact(b)[0]);
        match (a, b) {
            (
                Fact::Project(ProjectFact::Created { id: i1, name: n1, github_repo_id: r1 }),
                Fact::Project(ProjectFact::Created { id: i2, name: n2, github_repo_id: r2 }),
            ) => {
                assert(e.subrange(1, 9) =~= le_bytes(i1.value));
                assert(encode_fact(b).subrange(1, 9) =~= le_bytes(i2.value));
                assert(e.subrange(9, 17) =~= le_bytes(r1.value));
                assert(encode_fact(b).subrange(9, 17) =~= le_bytes(r2.value));
                assert(e.subrange(17, e.len() as int) =~= encode_utf8(n1));
                assert(encode_fact(b).subrange(17, e.len() as int) =~= encode_utf8(n2));
                lemma_le_bytes_injective(i1.value, i2.value);
                lemma_le_bytes_injective(r1.value, r2.value);
                encode_utf8_decode_utf8(n1);
                encode_utf8_decode_utf8(n2);
            },
            (
                Fact::Project(ProjectFact::LeaderAssigned { id: i1, leader_id: l1 }),
                Fact::Project(ProjectFact::LeaderAssigned { id: i2, leader_id: l2 }),
            ) => {
                assert(e.subrange(1, 9) =~= le_bytes(i1.value));
                assert(encode_fact(b).subrange(1, 9) =~= le_bytes(i2.value));
                assert(e.subrange(9, 17) =~= le_bytes(l1.value));
                assert(encode_fact(b).subrange(9, 17) =~= le_bytes(l2.value));
                lemma_le_bytes_injective(i1.value, i2.value);
                lemma_le_bytes_injective(l1.value, l2.value);
            },
            (
                Fact::Budget(BudgetEvent::Allocated { id: i1, topic: BudgetTopic::Project(p1), amount: a1 }),
                Fact::Budget(BudgetEvent::Allocated { id: i2, topic: BudgetTopic::Project(p2), amount: a2 }),
            ) => {
                assert(e.subrange(1, 9) =~= le_bytes(i1.value));
                assert(encode_fact(b).subrange(1, 9) =~= le_bytes(i2.value));
                assert(e.subrange(10, 18) =~= le_bytes(p1.value));
                assert(encode_fact(b).subrange(10, 18) =~= le_bytes(p2.value));
                assert(e.subrange(18, 26) =~= le_bytes(a1));
                assert(encode_fact(b).subrange(18, 26) =~= le_bytes(a2));
                lemma_le_bytes_injective(i1.value, i2.value);
                lemma_le_bytes_injective(p1.value, p2.value);
                lemma_le_bytes_injective(a1, a2);
            },
            (
                Fact::Budget(BudgetEvent::SpenderAssigned { id: i1, spender_id: s1 }),
                Fact::Budget(BudgetEvent::SpenderAssigned { id: i2, spender_id: s2 }),
            ) => {
                assert(e.subrange(1, 9) =~= le_bytes(i1.value));
                assert(encode_fact(b).subrange(1, 9) =~= le_bytes(i2.value));
                assert(e.subrange(9, 17) =~= le_bytes(s1.value));
                assert(encode_fact(b).subrange(9, 17) =~= le_bytes(s2.value));
                lemma_le_bytes_injective(i1.value, i2.value);
                lemma_le_bytes_injective(s1.value, s2.value);
            },
            _ => {},
        }
    }
}

/// Appends the eight bytes of `x`, least significant first.
fn push_u64(out: &mut Vec<u8>, x: u64)
    ensures
        final(out)@ == old(out)@ + le_bytes(x),
{
    out.push(x as u8);
    out.push((x >> 8u64) as u8);
    out.push((x >> 16u64) as u8);
    out.push((x >> 24u64) as u8);
    out.push((x >> 32u64) as u8);
    out.push((x >> 40u64) as u8);
    out.push((x >> 48u64) as u8);
    out.push((x >> 56u64) as u8);
    assert(final(out)@ =~= old(out)@ + le_bytes(x));
}

/// Encodes a fact canonically; see `encode_fact`.
pub fn encode_event(event: &Event) -> (r: Vec<u8>)
    ensures
        r@ == encode_fact(event@),
{
    let mut out: Vec<u8> = Vec::new();
    match event {
        Event::Project(ProjectEvent::Created { id, name, github_repo_id }) => {
            out.push(0u8);
            push_u64(&mut out, id.value);
            push_u64(&mut out, github_repo_id.value);
            let mut text = name.as_str().as_bytes_vec();
            out.append(&mut text);
        },
        Event::Project(ProjectEvent::LeaderAssigned { id, leader_id }) => {
            out.push(1u8);
            push_u64(&mut out, id.value);
            push_u64(&mut out, leader_id.value);
        },
        Event::Budget(BudgetEvent::Allocated { id, topic, amount }) => {
            out.push(2u8);
            push_u64(&mut out, id.value);
            match topic {
                BudgetTopic::Project(p) => {
                    out.push(0u8);
                    push_u64(&mut out, p.value);
                },
            }
            push_u64(&mut out, *amount);
        },
        Event::Budget(BudgetEvent::SpenderAssigned { id, spender_id }) => {
            out.push(3u8);
            push_u64(&mut out, id.value);
            push_u64(&mut out, spender_id.value);
        },
    }
    assert(out@ =~= encode_fact(event@));
    out
}

/// A fact wrapped with an identity derived from its contents, so that a
/// subscriber can drop a redelivered copy.
#[derive(Debug)]
pub struct UniqueMessage {
    pub id: Vec<u8>,
    pub payload: Event,
}

impl UniqueMessage {
    /// Wraps a fact; its identity is the fact's canonical encoding.
    pub fn new(payload: Event) -> (r: UniqueMessage)
        ensures
            r.id@ == encode_fact(payload@),
            r.payload@ == payload@,
    {
        let id = encode_event(&payload);
        UniqueMessage { id, payload }
    }
}

/// Wraps each fact of a batch, keeping the batch's order.
pub fn envelope_all(events: &Vec<Event>) -> (r: Vec<UniqueMessage>)
    ensures
        r@.len() == events@.len(),
        forall|k: int|
            0 <= k < r@.len() ==> #[trigger] r@[k].payload@ == events@[k]@ && r@[k].id@
                == encode_fact(events@[k]@),
{
    let mut r: Vec<UniqueMessage> = Vec::new();
    let mut i: usize = 0;
    while i < events.len()
        invariant
            i <= events@.len(),
            r@.len() == i,
            forall|k: int|
                0 <= k < i ==> #[trigger] r@[k].payload@ == events@[k]@ && r@[k].id@
                    == encode_fact(events@[k]@),
        decreases events@.len() - i,
    {
        r.push(UniqueMessage::new(events[i].duplicate()));
        i = i + 1;
    }
    r
}

/// The facts that a batch of envelopes carries, in order.
pub open spec fn payloads(batch: Seq<UniqueMessage>) -> Seq<Fact> {
    batch.map_values(|m: UniqueMessage| m.payload@)
}

} // verus!
