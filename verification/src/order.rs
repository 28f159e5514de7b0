//! The order in which identities are listed.

use crate::identity::Identity;
use vstd::prelude::*;
use vstd::utf8::{encode_utf8, encode_utf8_decode_utf8};

verus! {

/// Strict lexicographic order on byte strings: at the first place where they differ `a`
/// has the smaller byte, or `a` ends there and `b` goes on.
pub open spec fn bytes_precede(a: Seq<u8>, b: Seq<u8>) -> bool
    decreases a.len(),
{
    if b.len() == 0 {
        false
    } else if a.len() == 0 {
        true
    } else if a[0] != b[0] {
        a[0] < b[0]
    } else {
        bytes_precede(a.drop_first(), b.drop_first())
    }
}

/// The order of identities: that of their key bytes.
pub open spec fn precedes(a: Seq<char>, b: Seq<char>) -> bool {
    bytes_precede(Identity::key_bytes(a), Identity::key_bytes(b))
}

/// Whether `list` is in strictly ascending order.
pub open spec fn ascending(list: Seq<Seq<char>>) -> bool {
    forall|i: int, j: int|
        0 <= i < j < list.len() ==> precedes(#[trigger] list[i], #[trigger] list[j])
}

/// Whether `list` is the listing of `members`: it holds the members and nothing else, in
/// strictly ascending order, so each of them once.
pub open spec fn lists(list: Seq<Seq<char>>, members: Set<Seq<char>>) -> bool {
    &&& ascending(list)
    &&& forall|id: Seq<char>| members.contains(id) <==> list.contains(id)
}

/// The texts of `list`, in its order.
pub open spec fn texts_of(list: Seq<Identity>) -> Seq<Seq<char>> {
    list.map_values(|id: Identity| id@)
}

/// No byte string comes before itself.
pub proof fn bytes_precede_is_irreflexive(a: Seq<u8>)
    ensures
        !bytes_precede(a, a),
    decreases a.len(),
{
    if a.len() > 0 {
        bytes_precede_is_irreflexive(a.drop_first());
    }
}

/// What comes before something that comes before `c`, comes before `c`.
pub proof fn bytes_precede_is_transitive(a: Seq<u8>, b: Seq<u8>, c: Seq<u8>)
    requires
        bytes_precede(a, b),
        bytes_precede(b, c),
    ensures
        bytes_precede(a, c),
    decreases a.len(),
{
    if a.len() > 0 && a[0] == b[0] && b[0] == c[0] {
        bytes_precede_is_transitive(a.drop_first(), b.drop_first(), c.drop_first());
    }
}

/// Of two different byte strings one comes before the other.
pub proof fn bytes_precede_is_total(a: Seq<u8>, b: Seq<u8>)
    requires
        a != b,
    ensures
        bytes_precede(a, b) || bytes_precede(b, a),
    decreases a.len(),
{
    if a.len() > 0 && b.len() > 0 && a[0] == b[0] {
        if a.drop_first() == b.drop_first() {
            assert(a =~= seq![a[0]] + a.drop_first());
            assert(b =~= seq![b[0]] + b.drop_first());
        }
        bytes_precede_is_total(a.drop_first(), b.drop_first());
    } else if a.len() == 0 && b.len() == 0 {
        assert(a =~= b);
    }
}

/// The order of identities is a strict total order: no identity precedes itself, the
/// order is transitive, and of two different identities one precedes the other.
pub proof fn precedes_is_a_strict_total_order(a: Seq<char>, b: Seq<char>, c: Seq<char>)
    ensures
        !precedes(a, a),
        precedes(a, b) && precedes(b, c) ==> precedes(a, c),
        a != b ==> precedes(a, b) || precedes(b, a),
{
    bytes_precede_is_irreflexive(encode_utf8(a));
    if precedes(a, b) && precedes(b, c) {
        bytes_precede_is_transitive(encode_utf8(a), encode_utf8(b), encode_utf8(c));
    }
    if a != b {
        encode_utf8_decode_utf8(a);
        encode_utf8_decode_utf8(b);
        assert(encode_utf8(a) != encode_utf8(b));
        bytes_precede_is_total(encode_utf8(a), encode_utf8(b));
    }
}

/// A set has one listing at most: two lists that hold the same members in strictly
/// ascending order are the same list. So the listing of the writers depends on who the
/// writers are and on nothing else, such as the order in which they were added.
pub proof fn listing_is_unique(a: Seq<Seq<char>>, b: Seq<Seq<char>>, members: Set<Seq<char>>)
    requires
        lists(a, members),
        lists(b, members),
    ensures
        a == b,
    decreases a.len(),
{
    if a.len() == 0 {
        if b.len() > 0 {
            assert(b.contains(b[0]));
            assert(a.contains(b[0]));
        }
        assert(a =~= b);
    } else {
        assert(a.contains(a[0]));
        assert(b.contains(a[0]));
        assert(b.contains(b[0]));
        assert(a.contains(b[0]));
        let i = choose|i: int| 0 <= i < b.len() && b[i] == a[0];
        let j = choose|j: int| 0 <= j < a.len() && a[j] == b[0];
        precedes_is_a_strict_total_order(a[0], b[0], a[0]);
        assert(a[0] == b[0]) by {
            if i != 0 && j != 0 {
                assert(precedes(b[0], b[i]));
                assert(precedes(a[0], a[j]));
            }
        }
        let first = a[0];
        let rest = members.remove(first);
        assert forall|id: Seq<char>| rest.contains(id) <==> a.drop_first().contains(id) by {
            precedes_is_a_strict_total_order(first, first, first);
            if rest.contains(id) {
                assert(a.contains(id));
                let k = choose|k: int| 0 <= k < a.len() && a[k] == id;
                assert(a.drop_first()[k - 1] == id);
            }
            if a.drop_first().contains(id) {
                let k = choose|k: int| 0 <= k < a.drop_first().len() && a.drop_first()[k] == id;
                assert(a[k + 1] == id);
                assert(precedes(a[0], a[k + 1]));
                assert(a.contains(id));
            }
        }
        assert forall|id: Seq<char>| rest.contains(id) <==> b.drop_first().contains(id) by {
            precedes_is_a_strict_total_order(first, first, first);
            if rest.contains(id) {
                assert(b.contains(id));
                let k = choose|k: int| 0 <= k < b.len() && b[k] == id;
                assert(b.drop_first()[k - 1] == id);
            }
            if b.drop_first().contains(id) {
                let k = choose|k: int| 0 <= k < b.drop_first().len() && b.drop_first()[k] == id;
                assert(b[k + 1] == id);
                assert(precedes(b[0], b[k + 1]));
                assert(b.contains(id));
            }
        }
        assert(ascending(a.drop_first())) by {
            assert forall|x: int, y: int| 0 <= x < y < a.drop_first().len() implies precedes(
                #[trigger] a.drop_first()[x],
                #[trigger] a.drop_first()[y],
            ) by {
                assert(precedes(a[x + 1], a[y + 1]));
            }
        }
        assert(ascending(b.drop_first())) by {
            assert forall|x: int, y: int| 0 <= x < y < b.drop_first().len() implies precedes(
                #[trigger] b.drop_first()[x],
                #[trigger] b.drop_first()[y],
            ) by {
                assert(precedes(b[x + 1], b[y + 1]));
            }
        }
        listing_is_unique(a.drop_first(), b.drop_first(), rest);
        assert(a =~= seq![a[0]] + a.drop_first());
        assert(b =~= seq![b[0]] + b.drop_first());
    }
}

} // verus!
