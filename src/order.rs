//! The order in which chats are listed: most recent activity first, ties
//! broken by identifier.

use vstd::prelude::*;
use crate::types::Chat;
use vstd::seq_lib::{to_multiset_build, to_multiset_insert};

verus! {

broadcast use vstd::seq_lib::group_to_multiset_ensures;

/// Lexicographic `<=` on identifiers, by character code.
pub open spec fn id_le(a: Seq<char>, b: Seq<char>) -> bool
    decreases a.len(),
{
    if a.len() == 0 {
        true
    } else if b.len() == 0 {
        false
    } else if (a[0] as u32) != (b[0] as u32) {
        (a[0] as u32) < (b[0] as u32)
    } else {
        id_le(a.drop_first(), b.drop_first())
    }
}

/// `a` may stand before `b` in the chat list.
pub open spec fn precedes(a: Chat, b: Chat) -> bool {
    a.timestamp > b.timestamp || (a.timestamp == b.timestamp && id_le(a.id@, b.id@))
}

/// Each chat may stand before the next: newest first, ties by identifier.
pub open spec fn chats_sorted(s: Seq<Chat>) -> bool {
    forall|i: int| 0 <= i < s.len() - 1 ==> #[trigger] precedes(s[i], s[i + 1])
}

proof fn lemma_id_le_total(a: Seq<char>, b: Seq<char>)
    ensures
        id_le(a, b) || id_le(b, a),
    decreases a.len(),
{
    if a.len() > 0 && b.len() > 0 && (a[0] as u32) == (b[0] as u32) {
        lemma_id_le_total(a.drop_first(), b.drop_first());
    }
}

pub proof fn lemma_precedes_total(a: Chat, b: Chat)
    ensures
        precedes(a, b) || precedes(b, a),
{
    lemma_id_le_total(a.id@, b.id@);
}

/// Compares two identifiers lexicographically.
pub fn id_le_exec(a: &String, b: &String) -> (r: bool)
    ensures
        r == id_le(a@, b@),
{
    let sa = a.as_str();
    let sb = b.as_str();
    let la = sa.unicode_len();
    let lb = sb.unicode_len();
    let mut i: usize = 0;
    proof {
        assert(a@.skip(0) =~= a@);
        assert(b@.skip(0) =~= b@);
    }
    while i < la && i < lb
        invariant
            i <= la,
            i <= lb,
            la == a@.len(),
            lb == b@.len(),
            sa@ == a@,
            sb@ == b@,
            id_le(a@, b@) == id_le(a@.skip(i as int), b@.skip(i as int)),
        decreases la - i,
    {
        let ca = sa.get_char(i);
        let cb = sb.get_char(i);
        if (ca as u32) != (cb as u32) {
            return (ca as u32) < (cb as u32);
        }
        proof {
            assert(a@.skip(i as int).drop_first() =~= a@.skip(i + 1));
            assert(b@.skip(i as int).drop_first() =~= b@.skip(i + 1));
        }
        i = i + 1;
    }
    i == la
}

pub fn chat_precedes(a: &Chat, b: &Chat) -> (r: bool)
    ensures
        r == precedes(*a, *b),
{
    a.timestamp > b.timestamp || (a.timestamp == b.timestamp && id_le_exec(&a.id, &b.id))
}

/// Inserts `c` where it keeps the list sorted.
fn insert_sorted(v: &mut Vec<Chat>, c: Chat)
    requires
        chats_sorted(old(v)@),
    ensures
        chats_sorted(final(v)@),
        final(v)@.to_multiset() == old(v)@.to_multiset().insert(c),
{
    let mut p: usize = 0;
    while p < v.len() && !chat_precedes(&c, &v[p])
        invariant
            p <= v@.len(),
            forall|j: int| 0 <= j < p ==> !precedes(c, #[trigger] v@[j]),
        decreases v@.len() - p,
    {
        p = p + 1;
    }
    let ghost before = v@;
    proof {
        to_multiset_insert(before, p as int, c);
        if p > 0 {
            lemma_precedes_total(c, before[p - 1]);
        }
    }
    v.insert(p, c);
    proof {
        assert forall|i: int| 0 <= i < v@.len() - 1 implies #[trigger] precedes(v@[i], v@[i + 1]) by {
            if i + 1 < p {
                assert(precedes(before[i], before[i + 1]));
            } else if i + 1 == p {
                assert(!precedes(c, before[i]));
            } else if i == p {
            } else {
                let k = i - 1;
                assert(precedes(before[k], before[k + 1]));
                assert(v@[i] == before[k]);
                assert(v@[i + 1] == before[k + 1]);
            }
        };
    }
}

/// The same chats, newest first, ties by identifier.
pub fn sort_chats(v: Vec<Chat>) -> (r: Vec<Chat>)
    ensures
        chats_sorted(r@),
        r@.to_multiset() == v@.to_multiset(),
{
    let mut rest = v;
    let mut out: Vec<Chat> = Vec::new();
    while rest.len() > 0
        invariant
            chats_sorted(out@),
            out@.to_multiset().add(rest@.to_multiset()) == v@.to_multiset(),
        decreases rest@.len(),
    {
        let ghost r0 = rest@;
        let c = rest.pop().unwrap();
        proof {
            assert(r0 =~= rest@.push(c));
            to_multiset_build(rest@, c);
        }
        insert_sorted(&mut out, c);
        proof {
            assert(out@.to_multiset().add(rest@.to_multiset()) =~= v@.to_multiset());
        }
    }
    proof {
        assert(out@.to_multiset().add(rest@.to_multiset()) =~= out@.to_multiset());
    }
    out
}

} // verus!
