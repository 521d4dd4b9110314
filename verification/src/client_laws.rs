//! Which web requests the client answers and how, stated over where texts
//! occur in the request's address.

use vstd::prelude::*;

use crate::client::{
    find_from, join_spaced, lemma_find_in_range, occurs_at, resource_action_result, ResourceAction,
};

verus! {

/// `t` occurs somewhere in `s`.
pub open spec fn appears(s: Seq<char>, t: Seq<char>) -> bool {
    exists|i: int| occurs_at(s, t, i)
}

/// A search from `i` finds something exactly when `t` occurs at or after `i`.
proof fn lemma_found_iff_occurs(s: Seq<char>, t: Seq<char>, i: int)
    requires
        0 <= i,
    ensures
        (find_from(s, t, i) is Some) <==> exists|j: int| i <= j && occurs_at(s, t, j),
    decreases s.len() + 1 - i,
{
    if i + t.len() > s.len() {
        assert forall|j: int| i <= j implies !occurs_at(s, t, j) by {}
    } else if occurs_at(s, t, i) {
        assert(i <= i && occurs_at(s, t, i));
    } else {
        lemma_found_iff_occurs(s, t, i + 1);
        if exists|j: int| i <= j && occurs_at(s, t, j) {
            let j = choose|j: int| i <= j && occurs_at(s, t, j);
            assert(i + 1 <= j && occurs_at(s, t, j));
        }
        if exists|j: int| i + 1 <= j && occurs_at(s, t, j) {
            let j = choose|j: int| i + 1 <= j && occurs_at(s, t, j);
            assert(i <= j && occurs_at(s, t, j));
        }
    }
}

/// Whether an address holds a text, read by the search, is whether the text
/// occurs in it.
proof fn lemma_contains_iff_appears(s: Seq<char>, t: Seq<char>)
    ensures
        (find_from(s, t, 0) is Some) <==> appears(s, t),
{
    lemma_found_iff_occurs(s, t, 0);
    if appears(s, t) {
        let j = choose|j: int| occurs_at(s, t, j);
        assert(0 <= j && occurs_at(s, t, j));
    }
}

/// A search from `i` finds the first occurrence at or after `i`.
proof fn lemma_find_first(s: Seq<char>, t: Seq<char>, i: int, k: int)
    requires
        0 <= i <= k,
        occurs_at(s, t, k),
        forall|j: int| i <= j < k ==> !occurs_at(s, t, j),
    ensures
        find_from(s, t, i) == Some(k),
    decreases k - i,
{
    if i < k {
        assert(!occurs_at(s, t, i));
        lemma_find_first(s, t, i + 1, k);
    }
}

/// A request is blocked exactly when its address does not hold
/// `krunker.io`; the page is told that the game changed exactly when the
/// address holds it and also `game-info` or `lobby-ranked`; every other
/// request is looked up in the swapper.
pub proof fn law_resource_action_kinds(uri: Seq<char>, r: ResourceAction)
    requires
        resource_action_result(uri, r),
    ensures
        !appears(uri, "krunker.io"@) <==> r == ResourceAction::Block,
        (appears(uri, "krunker.io"@) && (appears(uri, "game-info"@) || appears(
            uri,
            "lobby-ranked"@,
        ))) <==> r == ResourceAction::NotifyGameUpdated,
        (appears(uri, "krunker.io"@) && !appears(uri, "game-info"@) && !appears(
            uri,
            "lobby-ranked"@,
        )) <==> (r is TrySwap),
{
    lemma_contains_iff_appears(uri, "krunker.io"@);
    lemma_contains_iff_appears(uri, "game-info"@);
    lemma_contains_iff_appears(uri, "lobby-ranked"@);
}

/// No `krunker.io/` starts within `name` or right after it in `name + tail`,
/// where `name` holds none and `tail` is empty or starts with `?`.
proof fn lemma_no_prefix_in_name(name: Seq<char>, tail: Seq<char>)
    requires
        !appears(name, "krunker.io/"@),
        tail.len() == 0 || tail[0] == '?',
    ensures
        forall|j: int| 0 <= j <= name.len() ==> !occurs_at(name + tail, "krunker.io/"@, j),
{
    let p = "krunker.io/"@;
    let rest = name + tail;
    reveal_strlit("krunker.io/");
    assert forall|j: int| 0 <= j <= name.len() implies !occurs_at(rest, p, j) by {
        if occurs_at(rest, p, j) {
            if j + p.len() <= name.len() {
                assert(name.subrange(j, j + p.len()) =~= rest.subrange(j, j + p.len()));
                assert(occurs_at(name, p, j));
            } else {
                let k = name.len() - j;
                assert(rest.subrange(j, j + p.len())[k] == rest[name.len() as int]);
                assert(rest[name.len() as int] == '?');
                assert(p[k] != '?');
            }
        }
    }
}

/// A request to `krunker.io` that is not about the game's info is looked up
/// in the swapper under the name that follows the first `krunker.io/` of its
/// address, up to the `?` of the query or the end.
pub proof fn law_swapped_file_name(
    pre: Seq<char>,
    name: Seq<char>,
    tail: Seq<char>,
    r: ResourceAction,
)
    requires
        resource_action_result(pre + "krunker.io/"@ + name + tail, r),
        forall|i: int|
            0 <= i < pre.len() ==> !occurs_at(pre + "krunker.io/"@ + name + tail, "krunker.io/"@, i),
        !appears(pre + "krunker.io/"@ + name + tail, "game-info"@),
        !appears(pre + "krunker.io/"@ + name + tail, "lobby-ranked"@),
        !name.contains('?'),
        !appears(name, "krunker.io/"@),
        tail.len() == 0 || tail[0] == '?',
    ensures
        r matches ResourceAction::TrySwap { filename } && filename@ == name,
{
    let p = "krunker.io/"@;
    let q = "?"@;
    let uri = pre + p + name + tail;
    reveal_strlit("krunker.io/");
    reveal_strlit("krunker.io");
    reveal_strlit("?");
    let a = pre.len() as int;
    assert(uri.subrange(a, a + p.len()) =~= p);
    assert(occurs_at(uri, p, a));
    lemma_find_first(uri, p, 0, a);
    assert(uri.subrange(a, a + 10) =~= "krunker.io"@);
    assert(occurs_at(uri, "krunker.io"@, a));
    lemma_contains_iff_appears(uri, "krunker.io"@);
    lemma_contains_iff_appears(uri, "game-info"@);
    lemma_contains_iff_appears(uri, "lobby-ranked"@);
    let rest = uri.subrange(a + p.len(), uri.len() as int);
    assert(rest =~= name + tail);
    lemma_no_prefix_in_name(name, tail);
    lemma_find_in_range(rest, p, 0);
    let piece = match find_from(rest, p, 0) {
        Some(b) => rest.subrange(0, b),
        None => rest,
    };
    assert(piece.len() >= name.len());
    assert(piece.subrange(0, name.len() as int) =~= name);
    assert forall|j: int| 0 <= j < name.len() implies !occurs_at(piece, q, j) by {
        if occurs_at(piece, q, j) {
            assert(piece.subrange(j, j + 1)[0] == piece[j]);
            assert(piece[j] == name[j]);
            assert(name.contains('?'));
        }
    }
    if tail.len() == 0 {
        assert(piece =~= name);
        lemma_found_iff_occurs(piece, q, 0);
        assert(find_from(piece, q, 0) is None);
    } else {
        assert(piece[name.len() as int] == '?');
        assert(piece.subrange(name.len() as int, name.len() as int + 1) =~= q);
        lemma_find_first(piece, q, 0, name.len() as int);
    }
}

/// Where the `i`-th of `parts` starts once they are written one after the
/// other with a space after each.
pub open spec fn spaced_offset(parts: Seq<Seq<char>>, i: int) -> int
    decreases i,
{
    if i <= 0 {
        0
    } else {
        spaced_offset(parts, i - 1) + parts[i - 1].len() + 1
    }
}

/// The offsets of the first parts do not depend on the later ones.
proof fn lemma_spaced_offsets(parts: Seq<Seq<char>>, i: int)
    requires
        0 <= i < parts.len(),
    ensures
        spaced_offset(parts.drop_last(), i) == spaced_offset(parts, i),
        spaced_offset(parts, i) >= 0,
    decreases i,
{
    if i > 0 {
        lemma_spaced_offsets(parts, i - 1);
    }
}

/// The offsets grow.
proof fn lemma_spaced_offsets_grow(parts: Seq<Seq<char>>, j: int, i: int)
    requires
        0 <= j <= i,
    ensures
        spaced_offset(parts, j) <= spaced_offset(parts, i),
    decreases i - j,
{
    if j < i {
        lemma_spaced_offsets_grow(parts, j, i - 1);
    }
}

/// What the positions of the parts say of a text `t` that writes them one
/// after the other with a single space between two neighbours.
pub open spec fn spaced_in_order(parts: Seq<Seq<char>>, t: Seq<char>) -> bool {
    &&& t.len() + 1 == spaced_offset(parts, parts.len() as int)
    &&& forall|i: int|
        0 <= i < parts.len() ==> t.subrange(
            spaced_offset(parts, i),
            spaced_offset(parts, i) + parts[i].len(),
        ) == #[trigger] parts[i]
    &&& forall|i: int|
        0 <= i < parts.len() - 1 ==> t[spaced_offset(parts, i) + (#[trigger] parts[i]).len()]
            == ' '
}

/// Writing one more part after a space keeps an earlier part, and the
/// space after it, where they were.
proof fn lemma_earlier_part_kept(parts: Seq<Seq<char>>, head: Seq<char>, i: int)
    requires
        parts.len() > 1,
        spaced_in_order(parts.drop_last(), head),
        0 <= i < parts.len() - 1,
    ensures
        ({
            let t = head + " "@ + parts.last();
            &&& t.subrange(spaced_offset(parts, i), spaced_offset(parts, i) + parts[i].len())
                == parts[i]
            &&& t[spaced_offset(parts, i) + parts[i].len()] == ' '
        }),
{
    let n = parts.len() as int;
    let init = parts.drop_last();
    let t = head + " "@ + parts.last();
    reveal_strlit(" ");
    lemma_spaced_offsets(parts, i);
    lemma_spaced_offsets(parts, n - 1);
    lemma_spaced_offsets_grow(parts, i + 1, n - 1);
    let o = spaced_offset(parts, i);
    assert(spaced_offset(parts, i + 1) == o + parts[i].len() + 1);
    assert(init[i] == parts[i]);
    assert(head.subrange(o, o + init[i].len()) == init[i]);
    assert(t.subrange(o, o + parts[i].len()) =~= head.subrange(o, o + init[i].len()));
    if i < n - 2 {
        assert(head[o + init[i].len()] == ' ');
    } else {
        assert(o + parts[i].len() == head.len());
    }
}

/// Writing one more part after a space keeps the earlier parts where they
/// were and puts the new one after them.
proof fn lemma_spaced_in_order_step(parts: Seq<Seq<char>>, head: Seq<char>)
    requires
        parts.len() > 1,
        spaced_in_order(parts.drop_last(), head),
    ensures
        spaced_in_order(parts, head + " "@ + parts.last()),
{
    let n = parts.len() as int;
    let t = head + " "@ + parts.last();
    reveal_strlit(" ");
    lemma_spaced_offsets(parts, n - 1);
    assert(spaced_offset(parts, n - 1) == head.len() + 1);
    assert(spaced_offset(parts, n) == spaced_offset(parts, n - 1) + parts[n - 1].len() + 1);
    assert(t.subrange(spaced_offset(parts, n - 1), spaced_offset(parts, n - 1) + parts[n - 1].len())
        =~= parts[n - 1]);
    assert forall|i: int| 0 <= i < n implies t.subrange(
        spaced_offset(parts, i),
        spaced_offset(parts, i) + parts[i].len(),
    ) == #[trigger] parts[i] by {
        if i < n - 1 {
            lemma_earlier_part_kept(parts, head, i);
        }
    }
    assert forall|i: int| 0 <= i < n - 1 implies t[spaced_offset(parts, i) + (
    #[trigger] parts[i]).len()] == ' ' by {
        lemma_earlier_part_kept(parts, head, i);
    }
}

/// The launch arguments are reported in order, each where the earlier ones
/// and a space after each of them end, with a single space between two
/// neighbours and nothing else.
pub proof fn law_launch_args_in_order(parts: Seq<Seq<char>>)
    requires
        parts.len() > 0,
    ensures
        spaced_in_order(parts, join_spaced(parts)),
    decreases parts.len(),
{
    if parts.len() > 1 {
        law_launch_args_in_order(parts.drop_last());
        lemma_spaced_in_order_step(parts, join_spaced(parts.drop_last()));
    } else {
        reveal_with_fuel(spaced_offset, 2);
        assert(spaced_offset(parts, 1) == parts[0].len() + 1);
        assert(join_spaced(parts).subrange(0, parts[0].len() as int) =~= parts[0]);
    }
}
} // verus!
