//! Setting up the game's stats feed: the configuration rewrite and the setup panel's state.

use vstd::prelude::*;

use crate::text::{chars_of, find_first, find_in, lemma_find_from_sound, occurs_at, push_str, string_of};

verus! {

/// `s` with every occurrence of `from` replaced by `to`, scanning left to right without
/// overlaps (what `str::replace` does).
pub open spec fn replaced(s: Seq<char>, from: Seq<char>, to: Seq<char>) -> Seq<char>
    decreases s.len(),
{
    if from.len() == 0 {
        s
    } else {
        match find_first(s, from) {
            Some(i) => if 0 <= i && i + from.len() <= s.len() {
                s.take(i) + to + replaced(s.skip(i + from.len()), from, to)
            } else {
                s
            },
            None => s,
        }
    }
}

/// Replaces every occurrence of `from` by `to`.
pub fn replace_all(s: &str, from: &str, to: &str) -> (r: String)
    requires
        from@.len() > 0,
    ensures
        r@ == replaced(s@, from@, to@),
{
    let v = chars_of(s);
    let pat = chars_of(from);
    let mut out = String::new();
    let mut pos: usize = 0;
    assert(v@.skip(0) =~= v@);
    loop
        invariant
            v@ == s@,
            pat@ == from@,
            pat@.len() > 0,
            pos <= v@.len(),
            replaced(s@, from@, to@) == out@ + replaced(v@.skip(pos as int), from@, to@),
        decreases v@.len() - pos,
    {
        let ghost rest = v@.skip(pos as int);
        let found = find_in(&v, pos, &pat);
        match found {
            Some(i) => {
                let n = v.len();
                let plen = pat.len();
                assert(i + plen <= n - pos);
                let before = string_of(&v, pos, pos + i);
                assert(v@.subrange(pos as int, (pos + i) as int) =~= rest.take(i as int));
                assert(v@.skip((pos + i + pat.len()) as int) =~= rest.skip(i + from@.len()));
                let ghost o = out@;
                push_str(&mut out, before.as_str());
                push_str(&mut out, to);
                assert(o + (rest.take(i as int) + to@ + replaced(rest.skip(i + from@.len()), from@, to@))
                    =~= out@ + replaced(rest.skip(i + from@.len()), from@, to@));
                pos = pos + i + plen;
            },
            None => {
                let tail = string_of(&v, pos, v.len());
                assert(v@.subrange(pos as int, v@.len() as int) =~= rest);
                push_str(&mut out, tail.as_str());
                return out;
            },
        }
    }
}

/// The stats feed configuration with the feed switched on: every `PacketSendRate=0`
/// becomes `PacketSendRate=1`.
pub fn rewrite_ini_contents(contents: &str) -> (r: String)
    ensures
        r@ == replaced(contents@, "PacketSendRate=0"@, "PacketSendRate=1"@),
{
    proof {
        reveal_strlit("PacketSendRate=0");
    }
    replace_all(contents, "PacketSendRate=0", "PacketSendRate=1")
}

/// The replacement text fits the replaced one: same length, the same characters but the
/// last, and its first character does not come back later in it.
pub open spec fn fits_replacement(from: Seq<char>, to: Seq<char>) -> bool {
    &&& from.len() > 0
    &&& to.len() == from.len()
    &&& forall|k: int| 0 <= k < from.len() - 1 ==> #[trigger] to[k] == from[k]
    &&& to[from.len() - 1] != from[from.len() - 1]
    &&& forall|k: int| 1 <= k < to.len() ==> #[trigger] to[k] != from[0]
}

/// No occurrence of `from` starts anywhere in the text made of the part before the first
/// occurrence, the replacement, and a rest free of occurrences.
proof fn lemma_no_occurrence_at(s: Seq<char>, from: Seq<char>, to: Seq<char>, i: int, r: Seq<char>, j: int)
    requires
        fits_replacement(from, to),
        occurs_at(s, from, i),
        forall|m: int| 0 <= m < i ==> !occurs_at(s, from, m),
        forall|m: int| !occurs_at(r, from, m),
    ensures
        !occurs_at(s.take(i) + to + r, from, j),
{
    let n = from.len() as int;
    let out = s.take(i) + to + r;
    if occurs_at(out, from, j) {
        assert forall|k: int| 0 <= k < n implies out[j + k] == from[k] by {
            assert(out.subrange(j, j + n)[k] == from[k]);
        }
        assert forall|k: int| 0 <= k < n implies s[i + k] == from[k] by {
            assert(s.subrange(i, i + n)[k] == from[k]);
        }
        if j < i {
            assert forall|k: int| 0 <= k < n implies s[j + k] == from[k] by {
                if j + k < i {
                    assert(out[j + k] == s[j + k]);
                } else {
                    let m = j + k - i;
                    assert(out[j + k] == to[m]);
                    assert(to[m] == from[m]);
                }
            }
            assert(s.subrange(j, j + n) =~= from);
            assert(occurs_at(s, from, j));
        } else if j == i {
            assert(out[i + n - 1] == to[n - 1]);
        } else if j < i + n {
            assert(out[j] == to[j - i]);
        } else {
            assert forall|k: int| 0 <= k < n implies r[j - i - n + k] == from[k] by {
                assert(out[j + k] == r[j - i - n + k]);
            }
            assert(r.subrange(j - i - n, j - i - n + n) =~= from);
            assert(occurs_at(r, from, j - i - n));
        }
    }
}

/// A fitting replacement leaves no occurrence of the replaced text behind.
proof fn lemma_replaced_leaves_none(s: Seq<char>, from: Seq<char>, to: Seq<char>)
    requires
        fits_replacement(from, to),
    ensures
        forall|j: int| !occurs_at(replaced(s, from, to), from, j),
    decreases s.len(),
{
    let n = from.len() as int;
    lemma_find_from_sound(s, from, 0);
    match find_first(s, from) {
        None => {
            assert(replaced(s, from, to) == s);
        },
        Some(i) => {
            let rest = s.skip(i + n);
            lemma_replaced_leaves_none(rest, from, to);
            let r = replaced(rest, from, to);
            assert(replaced(s, from, to) == s.take(i) + to + r);
            assert forall|j: int| !occurs_at(s.take(i) + to + r, from, j) by {
                lemma_no_occurrence_at(s, from, to, i, r, j);
            }
        },
    }
}

/// After the rewrite the configuration holds no `PacketSendRate=0`: the feed is switched on
/// wherever the configuration had it off.
pub proof fn lemma_rewrite_switches_feed_on(contents: Seq<char>)
    ensures
        find_first(replaced(contents, "PacketSendRate=0"@, "PacketSendRate=1"@), "PacketSendRate=0"@) is None,
{
    let from = "PacketSendRate=0"@;
    let to = "PacketSendRate=1"@;
    reveal_strlit("PacketSendRate=0");
    reveal_strlit("PacketSendRate=1");
    assert(fits_replacement(from, to));
    lemma_replaced_leaves_none(contents, from, to);
    let out = replaced(contents, from, to);
    lemma_find_from_sound(out, from, 0);
}

/// The setup panel: the outcome of the last setup, if one was run (success, with a note
/// when the game must be restarted; or the error's message).
pub struct AutoSetupWidget {
    pub success: Option<Result<Option<&'static str>, String>>,
}

/// The note shown when the game was open during the setup.
pub open spec fn restart_note() -> Seq<char> {
    "You will need to restart Rocket League."@
}

impl AutoSetupWidget {
    /// A panel where no setup was run yet.
    pub fn new() -> (r: Self)
        ensures
            r.success is None,
    {
        AutoSetupWidget { success: None }
    }

    /// Records a failed setup.
    pub fn fail(&mut self, message: String)
        ensures
            final(self).success matches Some(Err(m)) && m@ == message@,
    {
        self.success = Some(Err(message));
    }

    /// Records a setup that rewrote the configuration; the game must be restarted when it
    /// was open.
    pub fn succeed(&mut self, rocket_league_open: bool)
        ensures
            final(self).success matches Some(Ok(note)) && (note is Some <==> rocket_league_open) && (
            note matches Some(n) ==> n@ == restart_note()),
    {
        let note = if rocket_league_open {
            Some("You will need to restart Rocket League.")
        } else {
            None
        };
        self.success = Some(Ok(note));
    }

    /// The panel's name.
    pub fn name(&self) -> (r: &'static str)
        ensures
            r@ == "Stats API Setup"@,
    {
        "Stats API Setup"
    }

    /// The setup button's text: an automatic setup when the game's path is known, else a
    /// file choice.
    pub fn button_text(has_exe_path: bool) -> (r: &'static str)
        ensures
            r@ == if has_exe_path {
                "Set up automatically"@
            } else {
                "Select file"@
            },
    {
        if has_exe_path {
            "Set up automatically"
        } else {
            "Select file"
        }
    }
}

} // verus!
