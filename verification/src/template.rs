//! Reward-message rendering: marker substitution in host-configured message
//! templates, as handed to the chat-relay collaborator.

use vstd::prelude::*;
use vstd::string::StrSliceExecFns;
use vstd::string::StringExecFns;

use crate::decimal::spec_decimal;
use crate::decimal::u64_to_decimal;

verus! {

/// `s` with every occurrence of `pat` replaced by `to`, scanning left to
/// right and never rescanning replaced text. An empty `pat` replaces nothing.
pub open spec fn spec_replace(s: Seq<char>, pat: Seq<char>, to: Seq<char>) -> Seq<char>
    decreases s.len(),
{
    if pat.len() == 0 || s.len() < pat.len() {
        s
    } else if s.subrange(0, pat.len() as int) == pat {
        to + spec_replace(s.skip(pat.len() as int), pat, to)
    } else {
        seq![s[0]] + spec_replace(s.skip(1), pat, to)
    }
}

/// The per-guess reward message: the template with `<USER>` replaced by the
/// guesser's display name, then `<ITEM>` by the chosen item's name.
pub open spec fn spec_reward_message(
    template: Seq<char>,
    username: Seq<char>,
    item_name: Seq<char>,
) -> Seq<char> {
    spec_replace(spec_replace(template, "<USER>"@, username), "<ITEM>"@, item_name)
}

/// The per-winner game-end message: the template with `<USER>` replaced by
/// the winner's display name, then `<POINTS>` by their point total, then
/// `<TOTAL>` by the number of resolved items.
pub open spec fn spec_total_reward_message(
    template: Seq<char>,
    username: Seq<char>,
    points: nat,
    total_drops: nat,
) -> Seq<char> {
    spec_replace(
        spec_replace(
            spec_replace(template, "<USER>"@, username),
            "<POINTS>"@,
            spec_decimal(points),
        ),
        "<TOTAL>"@,
        spec_decimal(total_drops),
    )
}

/// Whether `pat` occurs in `s` starting at character position `at`.
fn matches_at(s: &str, pat: &str, at: usize, s_len: usize, pat_len: usize) -> (b: bool)
    requires
        s_len == s@.len(),
        pat_len == pat@.len(),
        at + pat_len <= s_len,
    ensures
        b == (s@.subrange(at as int, at as int + pat@.len()) == pat@),
{
    let mut j: usize = 0;
    while j < pat_len
        invariant
            j <= pat_len,
            forall|k: int| 0 <= k < j ==> s@[at + k] == pat@[k],
        decreases pat_len - j,
    {
        if s.get_char(at + j) != pat.get_char(j) {
            proof {
                assert(s@.subrange(at as int, at as int + pat@.len())[j as int] != pat@[j as int]);
            }
            return false;
        }
        j += 1;
    }
    proof {
        assert(s@.subrange(at as int, at as int + pat@.len()) =~= pat@);
    }
    true
}

/// Replaces every occurrence of `pat` in `s` by `to`, scanning left to right.
pub fn replace_marker(s: &str, pat: &str, to: &str) -> (r: String)
    requires
        pat@.len() > 0,
    ensures
        r@ == spec_replace(s@, pat@, to@),
{
    let s_len = s.unicode_len();
    let pat_len = pat.unicode_len();
    let mut r = String::new();
    let mut i: usize = 0;
    proof {
        assert(s@.skip(0) =~= s@);
        assert(r@ + spec_replace(s@, pat@, to@) =~= spec_replace(s@, pat@, to@));
    }
    while i < s_len
        invariant
            i <= s_len,
            s_len == s@.len(),
            pat_len == pat@.len(),
            pat_len > 0,
            r@ + spec_replace(s@.skip(i as int), pat@, to@) == spec_replace(s@, pat@, to@),
        decreases s_len - i,
    {
        let ghost tail = s@.skip(i as int);
        if pat_len <= s_len - i && matches_at(s, pat, i, s_len, pat_len) {
            proof {
                assert(tail.subrange(0, pat@.len() as int) =~= s@.subrange(
                    i as int,
                    i as int + pat@.len(),
                ));
                assert(tail.skip(pat@.len() as int) =~= s@.skip(i as int + pat@.len()));
            }
            r.append(to);
            i += pat_len;
            proof {
                assert(r@ + spec_replace(s@.skip(i as int), pat@, to@) =~= spec_replace(
                    s@,
                    pat@,
                    to@,
                ));
            }
        } else {
            proof {
                if i + pat_len <= s_len {
                    assert(tail.subrange(0, pat@.len() as int) =~= s@.subrange(
                        i as int,
                        i as int + pat@.len(),
                    ));
                }
                assert(tail.len() >= 1);
                assert(seq![tail[0]] =~= s@.subrange(i as int, i as int + 1));
                assert(tail.skip(1) =~= s@.skip(i as int + 1));
            }
            let piece = s.substring_char(i, i + 1);
            r.append(piece);
            i += 1;
            proof {
                assert(r@ + spec_replace(s@.skip(i as int), pat@, to@) =~= spec_replace(
                    s@,
                    pat@,
                    to@,
                ));
            }
        }
    }
    proof {
        assert(s@.skip(s_len as int) =~= Seq::<char>::empty());
        assert(r@ =~= spec_replace(s@, pat@, to@));
    }
    r
}

/// Renders the per-guess reward message for one correct guesser.
pub fn render_reward_message(template: &str, username: &str, item_name: &str) -> (r: String)
    ensures
        r@ == spec_reward_message(template@, username@, item_name@),
{
    proof {
        reveal_strlit("<USER>");
        reveal_strlit("<ITEM>");
    }
    let with_user = replace_marker(template, "<USER>", username);
    replace_marker(with_user.as_str(), "<ITEM>", item_name)
}

/// Renders the game-end reward message for one winner.
pub fn render_total_reward_message(
    template: &str,
    username: &str,
    points: u64,
    total_drops: u64,
) -> (r: String)
    ensures
        r@ == spec_total_reward_message(template@, username@, points as nat, total_drops as nat),
{
    proof {
        reveal_strlit("<USER>");
        reveal_strlit("<POINTS>");
        reveal_strlit("<TOTAL>");
    }
    let with_user = replace_marker(template, "<USER>", username);
    let points_str = u64_to_decimal(points);
    let with_points = replace_marker(with_user.as_str(), "<POINTS>", points_str.as_str());
    let total_str = u64_to_decimal(total_drops);
    replace_marker(with_points.as_str(), "<TOTAL>", total_str.as_str())
}

} // verus!
