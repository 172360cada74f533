use vstd::prelude::*;
use crate::entropy::{is_white_space, lemma_trim_end_cut, lemma_trim_start_skip, trim, trim_bounds, trim_end, trim_start};
use vstd::string::StrSliceExecFns;

verus! {

/// A status file counts as set when its contents, trimmed, are exactly `1`.
pub open spec fn flag_set_spec(contents: Option<Seq<char>>) -> bool {
    match contents {
        Some(c) => trim(c) == seq!['1'],
        None => false,
    }
}

/// Whether a status file (`None`: unreadable) is set.
pub fn flag_set(contents: Option<&str>) -> (r: bool)
    ensures
        r == flag_set_spec(
            match contents {
                Some(c) => Some(c@),
                None => None,
            },
        ),
{
    match contents {
        Some(c) => {
            let (start, end) = trim_bounds(c);
            if end - start == 1 {
                let ch = c.get_char(start);
                proof {
                    assert(trim(c@).len() == 1 && trim(c@)[0] == ch);
                    if ch == '1' {
                        assert(trim(c@) =~= seq!['1']);
                    }
                }
                ch == '1'
            } else {
                proof {
                    assert(trim(c@).len() != seq!['1'].len());
                }
                false
            }
        },
        None => false,
    }
}

/// The soft and hard block state files of one rfkill node.
pub struct RadioFlags {
    pub soft: bool,
    pub hard: bool,
}

/// How many radios in `radios` are soft- or hard-blocked.
pub open spec fn blocked_count(radios: Seq<(bool, bool)>) -> nat
    decreases radios.len(),
{
    if radios.len() == 0 {
        0
    } else {
        blocked_count(radios.drop_last()) + if radios.last().0 || radios.last().1 {
            1nat
        } else {
            0nat
        }
    }
}

pub open spec fn radio_view(r: RadioFlags) -> (bool, bool) {
    (r.soft, r.hard)
}

/// The airgap tally of the recovery console: how many radios are blocked,
/// and how many there are.
pub fn airgap_tally(radios: &Vec<RadioFlags>) -> (r: (usize, usize))
    ensures
        r.1 == radios@.len(),
        r.0 == blocked_count(radios@.map_values(|f: RadioFlags| radio_view(f))),
{
    let mut blocked: usize = 0;
    let mut i: usize = 0;
    let ghost view = radios@.map_values(|f: RadioFlags| radio_view(f));
    while i < radios.len()
        invariant
            i <= radios@.len(),
            view == radios@.map_values(|f: RadioFlags| radio_view(f)),
            blocked == blocked_count(view.take(i as int)),
            blocked <= i,
        decreases radios@.len() - i,
    {
        proof {
            assert(view.take(i + 1).drop_last() =~= view.take(i as int));
        }
        if radios[i].soft || radios[i].hard {
            blocked = blocked + 1;
        }
        i = i + 1;
    }
    proof {
        assert(view.take(radios@.len() as int) =~= view);
    }
    (blocked, radios.len())
}

/// The console reports all radios down when there is at least one and every
/// one is blocked.
pub fn all_radios_down(blocked: usize, total: usize) -> (r: bool)
    ensures
        r == (total > 0 && blocked == total),
{
    total > 0 && blocked == total
}

/// The update key counts as pinned when its file holds at least 32 bytes
/// (`None`: the file is missing).
pub fn update_key_pinned(len: Option<u64>) -> (r: bool)
    ensures
        r == (len matches Some(n) && n >= 32),
{
    match len {
        Some(n) => n >= 32,
        None => false,
    }
}

proof fn lemma_blocked_count_bound(radios: Seq<(bool, bool)>)
    ensures
        blocked_count(radios) <= radios.len(),
        blocked_count(radios) == radios.len()
            <==> forall|i: int| 0 <= i < radios.len() ==> (#[trigger] radios[i]).0 || radios[i].1,
    decreases radios.len(),
{
    if radios.len() > 0 {
        let init = radios.drop_last();
        lemma_blocked_count_bound(init);
        if blocked_count(radios) == radios.len() {
            assert forall|i: int| 0 <= i < radios.len() implies (#[trigger] radios[i]).0 || radios[i].1 by {
                if i < radios.len() - 1 {
                    assert(radios[i] == init[i]);
                }
            }
        }
        if forall|i: int| 0 <= i < radios.len() ==> (#[trigger] radios[i]).0 || radios[i].1 {
            assert forall|i: int| 0 <= i < init.len() implies (#[trigger] init[i]).0 || init[i].1 by {
                assert(init[i] == radios[i]);
            }
            assert(radios[radios.len() - 1] == radios.last());
        }
    }
}

/// The console says all radios are down exactly when there is at least one
/// radio and every one is soft- or hard-blocked.
pub proof fn law_all_down_means_every_radio_blocked(radios: Seq<(bool, bool)>)
    ensures
        (radios.len() > 0 && blocked_count(radios) == radios.len())
            <==> (radios.len() > 0 && forall|i: int| 0 <= i < radios.len() ==> (#[trigger] radios[i]).0 || radios[i].1),
{
    lemma_blocked_count_bound(radios);
}

proof fn trim_start_index(s: Seq<char>) -> (k: int)
    ensures
        0 <= k <= s.len(),
        forall|j: int| 0 <= j < k ==> is_white_space(#[trigger] s[j]),
        k < s.len() ==> !is_white_space(s[k]),
        trim_start(s) == s.subrange(k, s.len() as int),
    decreases s.len(),
{
    if s.len() > 0 && is_white_space(s[0]) {
        let k1 = trim_start_index(s.drop_first());
        assert forall|j: int| 0 <= j < k1 + 1 implies is_white_space(#[trigger] s[j]) by {
            if j > 0 {
                assert(s[j] == s.drop_first()[j - 1]);
            }
        }
        assert(s.drop_first().subrange(k1, s.drop_first().len() as int) =~= s.subrange(k1 + 1, s.len() as int));
        if k1 + 1 < s.len() {
            assert(s[k1 + 1] == s.drop_first()[k1]);
        }
        k1 + 1
    } else {
        assert(s.subrange(0, s.len() as int) =~= s);
        0
    }
}

proof fn trim_end_index(s: Seq<char>) -> (m: int)
    ensures
        0 <= m <= s.len(),
        forall|j: int| m <= j < s.len() ==> is_white_space(#[trigger] s[j]),
        m > 0 ==> !is_white_space(s[m - 1]),
        trim_end(s) == s.subrange(0, m),
    decreases s.len(),
{
    if s.len() > 0 && is_white_space(s.last()) {
        let m1 = trim_end_index(s.drop_last());
        assert forall|j: int| m1 <= j < s.len() implies is_white_space(#[trigger] s[j]) by {
            if j < s.len() - 1 {
                assert(s[j] == s.drop_last()[j]);
            }
        }
        assert(s.drop_last().subrange(0, m1) =~= s.subrange(0, m1));
        if m1 > 0 {
            assert(s[m1 - 1] == s.drop_last()[m1 - 1]);
        }
        m1
    } else {
        assert(s.subrange(0, s.len() as int) =~= s);
        s.len() as int
    }
}

/// A status file counts as set exactly when it holds one `1` and nothing
/// else but white space.
pub proof fn law_flag_set_is_a_lone_one(c: Seq<char>)
    ensures
        flag_set_spec(Some(c)) <==> exists|i: int|
            0 <= i < c.len() && c[i] == '1' && forall|j: int|
                0 <= j < c.len() && j != i ==> is_white_space(#[trigger] c[j]),
{
    assert(!is_white_space('1'));
    let k = trim_start_index(c);
    let t = c.subrange(k, c.len() as int);
    let m = trim_end_index(t);
    if flag_set_spec(Some(c)) {
        assert(t.subrange(0, m) == seq!['1']);
        assert(m == 1);
        assert(t[0] == t.subrange(0, m)[0]);
        assert(c[k] == '1');
        assert forall|j: int| 0 <= j < c.len() && j != k implies is_white_space(#[trigger] c[j]) by {
            if j > k {
                assert(c[j] == t[j - k]);
            }
        }
    }
    if exists|i: int|
        0 <= i < c.len() && c[i] == '1' && forall|j: int|
            0 <= j < c.len() && j != i ==> is_white_space(#[trigger] c[j]) {
        let i = choose|i: int|
            0 <= i < c.len() && c[i] == '1' && forall|j: int|
                0 <= j < c.len() && j != i ==> is_white_space(#[trigger] c[j]);
        lemma_trim_start_skip(c, i);
        let u = c.subrange(i, c.len() as int);
        assert(u[0] == '1');
        assert(trim_start(u) == u);
        assert forall|j: int| 1 <= j < u.len() implies is_white_space(#[trigger] u[j]) by {
            assert(u[j] == c[i + j]);
        }
        lemma_trim_end_cut(u, 1);
        let one = u.subrange(0, 1);
        assert(one =~= seq!['1']);
        assert(one.last() == '1');
        assert(trim_end(one) == one);
    }
}

/// Each radio is counted by its own flags: adding a radio adds one to the
/// blocked count exactly when that radio is soft- or hard-blocked.
pub proof fn law_radio_counted_by_its_flags(radios: Seq<(bool, bool)>, x: (bool, bool))
    ensures
        blocked_count(radios.push(x)) == blocked_count(radios) + if x.0 || x.1 {
            1int
        } else {
            0int
        },
{
    assert(radios.push(x).drop_last() =~= radios);
}

/// The blocked count does not depend on where radios stand: the count of two
/// lists of radios together is the sum of their counts.
pub proof fn law_blocked_count_adds_up(a: Seq<(bool, bool)>, b: Seq<(bool, bool)>)
    ensures
        blocked_count(a + b) == blocked_count(a) + blocked_count(b),
    decreases b.len(),
{
    if b.len() == 0 {
        assert(a + b =~= a);
    } else {
        law_blocked_count_adds_up(a, b.drop_last());
        assert((a + b).drop_last() =~= a + b.drop_last());
        assert((a + b).last() == b.last());
    }
}

/// A radio with neither flag set is never counted as blocked, wherever it
/// stands.
pub proof fn law_unblocked_radio_not_counted(a: Seq<(bool, bool)>, b: Seq<(bool, bool)>)
    ensures
        blocked_count(a + seq![(false, false)] + b) == blocked_count(a) + blocked_count(b),
{
    law_blocked_count_adds_up(a + seq![(false, false)], b);
    law_blocked_count_adds_up(a, seq![(false, false)]);
    let one = seq![(false, false)];
    assert(one.drop_last() =~= Seq::<(bool, bool)>::empty());
    assert(blocked_count(one.drop_last()) == 0);
    assert(one.last() == (false, false));
    assert(blocked_count(one) == 0);
}

} // verus!
