use vstd::prelude::*;
use crate::bump_type::{classified, BumpType};
use crate::conventional_commit::{header_of, marks_breaking, parse_model};
use crate::release::{planned_parents, tag_text};
use crate::scm::git::Tag;
use crate::text::{index_from, lemma_index_from, replaced};
use crate::version::{lemma_version_text_injective, Version};
use crate::version_manager::{decoded, is_previous_release, none_decoded, stripped, tag_names};

verus! {

/// A message that opens with `pre`, whose first `:` is at `c`, parses with the
/// type `t` and no scope, and is breaking exactly when it marks a break.
proof fn lemma_typed_header(pre: Seq<char>, m: Seq<char>, c: int, t: Seq<char>)
    requires
        0 <= c < pre.len(),
        pre[c] == ':',
        forall|i: int| 0 <= i < c ==> pre[i] != ':',
        forall|i: int| 0 <= i < pre.len() ==> pre[i] != '\n',
        t == replaced(pre.take(c), seq!['!'], Seq::empty()),
        !t.contains('('),
    ensures
        parse_model(pre + m) is Ok,
        parse_model(pre + m)->Ok_0.commit_type == t,
        parse_model(pre + m)->Ok_0.breaking_change == marks_breaking(pre + m),
        header_of(pre + m).len() >= pre.len(),
        header_of(pre + m).take(pre.len() as int) == pre,
{
    let msg = pre + m;
    lemma_index_from(msg, '\n', 0);
    let e = index_from(msg, '\n', 0);
    if e < pre.len() {
        assert(msg[e] == pre[e]);
    }
    let h = header_of(msg);
    assert(h.take(pre.len() as int) =~= pre);
    lemma_index_from(h, ':', 0);
    let k = index_from(h, ':', 0);
    assert(h[c] == pre[c]);
    if k < c {
        assert(h[k] == pre[k]);
    }
    assert(k == c);
    assert(h.take(c) =~= pre.take(c));
    lemma_index_from(t, '(', 0);
    let p = index_from(t, '(', 0);
    if p < t.len() {
        assert(t.contains('('));
    }
}

proof fn lemma_replaced_absent(s: Seq<char>, x: char)
    requires
        !s.contains(x),
    ensures
        replaced(s, seq![x], Seq::empty()) == s,
    decreases s.len(),
{
    if s.len() > 0 {
        assert(s[0] != x);
        assert(s.take(1) =~= seq![s[0]]);
        assert(s.take(1)[0] != seq![x][0]);
        assert(!s.drop_first().contains(x)) by {
            if s.drop_first().contains(x) {
                let i = choose|i: int| 0 <= i < s.drop_first().len() && s.drop_first()[i] == x;
                assert(s[i + 1] == x);
            }
        }
        lemma_replaced_absent(s.drop_first(), x);
        assert(seq![s[0]] + s.drop_first() =~= s);
    }
}

proof fn lemma_replaced_trailing(a: Seq<char>, x: char)
    requires
        !a.contains(x),
    ensures
        replaced(a.push(x), seq![x], Seq::empty()) == a,
    decreases a.len(),
{
    let s = a.push(x);
    if a.len() == 0 {
        assert(s.take(1) =~= seq![x]);
        assert(s.skip(1) =~= Seq::<char>::empty());
        assert(replaced(s.skip(1), seq![x], Seq::empty()) == Seq::<char>::empty());
        assert(Seq::<char>::empty() + Seq::<char>::empty() =~= a);
    } else {
        assert(a[0] != x);
        assert(s.take(1) =~= seq![a[0]]);
        assert(s.take(1)[0] != seq![x][0]);
        assert(s.drop_first() =~= a.drop_first().push(x));
        assert(!a.drop_first().contains(x)) by {
            if a.drop_first().contains(x) {
                let i = choose|i: int| 0 <= i < a.drop_first().len() && a.drop_first()[i] == x;
                assert(a[i + 1] == x);
            }
        }
        lemma_replaced_trailing(a.drop_first(), x);
        assert(seq![a[0]] + a.drop_first() =~= a);
    }
}

/// A message that opens with `feat: `, `fix: ` or `chore: ` and marks no break
/// asks for a minor, a patch and no bump; one that opens with `feat!: ` asks
/// for a major bump, whatever follows.
pub proof fn law_commit_type_decides_bump(m: Seq<char>)
    ensures
        !marks_breaking(seq!['f', 'e', 'a', 't', ':', ' '] + m) ==> classified(
            seq!['f', 'e', 'a', 't', ':', ' '] + m,
        ) == BumpType::Minor,
        !marks_breaking(seq!['f', 'i', 'x', ':', ' '] + m) ==> classified(
            seq!['f', 'i', 'x', ':', ' '] + m,
        ) == BumpType::Patch,
        classified(seq!['f', 'e', 'a', 't', '!', ':', ' '] + m) == BumpType::Major,
        !marks_breaking(seq!['c', 'h', 'o', 'r', 'e', ':', ' '] + m) ==> classified(
            seq!['c', 'h', 'o', 'r', 'e', ':', ' '] + m,
        ) == BumpType::NoBump,
{
    let feat = seq!['f', 'e', 'a', 't', ':', ' '];
    let fix = seq!['f', 'i', 'x', ':', ' '];
    let bang = seq!['f', 'e', 'a', 't', '!', ':', ' '];
    let chore = seq!['c', 'h', 'o', 'r', 'e', ':', ' '];
    let ft = seq!['f', 'e', 'a', 't'];
    let xt = seq!['f', 'i', 'x'];
    let ct = seq!['c', 'h', 'o', 'r', 'e'];
    assert(feat.take(4) =~= ft);
    assert(bang.take(5) =~= seq!['f', 'e', 'a', 't', '!']);
    assert(fix.take(3) =~= xt);
    assert(chore.take(5) =~= ct);
    assert(!ft.contains('(') && !ft.contains('!')) by {
        assert(forall|i: int| 0 <= i < ft.len() ==> ft[i] != '(' && ft[i] != '!');
    }
    assert(!xt.contains('(') && !xt.contains('!')) by {
        assert(forall|i: int| 0 <= i < xt.len() ==> xt[i] != '(' && xt[i] != '!');
    }
    assert(!ct.contains('(') && !ct.contains('!')) by {
        assert(forall|i: int| 0 <= i < ct.len() ==> ct[i] != '(' && ct[i] != '!');
    }
    lemma_replaced_absent(ft, '!');
    lemma_replaced_absent(xt, '!');
    lemma_replaced_absent(ct, '!');
    lemma_replaced_trailing(ft, '!');
    assert(ft.push('!') =~= seq!['f', 'e', 'a', 't', '!']);
    lemma_typed_header(feat, m, 4, ft);
    lemma_typed_header(fix, m, 3, xt);
    lemma_typed_header(bang, m, 5, ft);
    lemma_typed_header(chore, m, 6 - 1, ct);
    let h = header_of(bang + m);
    assert(h.take(7)[4] == '!');
    assert(h[4] == '!');
    assert(marks_breaking(bang + m));
}

/// Applying no bump leaves any version as it is.
pub proof fn law_no_bump_keeps_version(v: Version)
    ensures
        v.can_bump(BumpType::NoBump),
        v.bumped(BumpType::NoBump) == v,
{
}

/// A tag made of a prefix, a version and a suffix decodes, under the same
/// prefix and suffix, to that version.
pub proof fn law_tag_round_trip(v: Version, p: Seq<char>, s: Seq<char>)
    ensures
        decoded(tag_text(v, p, s), p, s) == Some(v),
{
    let t = v.text();
    let n = tag_text(v, p, s);
    assert(n.take(p.len() as int) =~= p);
    assert(n.skip(p.len() as int) =~= t + s);
    if p.len() == 0 {
        assert(n =~= t + s);
    }
    let a = t + s;
    assert(a.skip(a.len() - s.len()) =~= s);
    assert(a.take(a.len() - s.len()) =~= t);
    if s.len() == 0 {
        assert(a =~= t);
    }
    assert(stripped(n, p, s) == t);
    let w = choose|w: Version| w.text() == t;
    lemma_version_text_injective(
        w.major as nat,
        w.minor as nat,
        w.patch as nat,
        v.major as nat,
        v.minor as nat,
        v.patch as nat,
    );
}

/// A release commit has one parent, the branch tip, when no tag is a release;
/// otherwise it has two: the previous release first, the branch tip second.
pub proof fn law_release_parents(
    tags: Seq<Tag>,
    p: Seq<char>,
    s: Seq<char>,
    tip: Seq<char>,
    parents: Seq<Seq<char>>,
)
    requires
        planned_parents(tags, p, s, tip, parents),
    ensures
        none_decoded(tag_names(tags), p, s) ==> parents.len() == 1 && parents[0] == tip,
        !none_decoded(tag_names(tags), p, s) ==> parents.len() == 2 && parents[1] == tip
            && is_previous_release(tags, p, s, parents[0]),
{
}

} // verus!
