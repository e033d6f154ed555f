//! The status lines that the monitor shows for what it found and what it
//! does next.

use vstd::prelude::*;
use vstd::string::StringExecFns;
use crate::snapshot::{TrackInfo, TrackInfoView};
use crate::timing::{spec_whole_seconds, whole_seconds};

verus! {

/// The character of a decimal digit.
pub open spec fn digit_char(digit: int) -> char {
    if digit == 0 {
        '0'
    } else if digit == 1 {
        '1'
    } else if digit == 2 {
        '2'
    } else if digit == 3 {
        '3'
    } else if digit == 4 {
        '4'
    } else if digit == 5 {
        '5'
    } else if digit == 6 {
        '6'
    } else if digit == 7 {
        '7'
    } else if digit == 8 {
        '8'
    } else {
        '9'
    }
}

/// A number in decimal notation, without leading zeros.
pub open spec fn spec_decimal(n: nat) -> Seq<char>
    decreases n,
{
    if n < 10 {
        seq![digit_char(n as int)]
    } else {
        spec_decimal(n / 10).push(digit_char((n % 10) as int))
    }
}

/// Names in one line, each two separated by a comma and a space.
pub open spec fn spec_join(names: Seq<Seq<char>>) -> Seq<char>
    decreases names.len(),
{
    if names.len() == 0 {
        Seq::empty()
    } else if names.len() == 1 {
        names[0]
    } else {
        spec_join(names.drop_last()) + ", "@ + names.last()
    }
}

/// The line that describes the content now playing.
pub open spec fn spec_now_playing_line(info: TrackInfoView, progress_ms: nat) -> Seq<char> {
    "Currently playing "@ + info.kind + " is "@ + info.name + " by "@ + spec_join(info.artists)
        + " lasting for "@ + spec_decimal(spec_whole_seconds(info.duration_ms as int) as nat)
        + " seconds with "@ + spec_decimal(spec_whole_seconds(progress_ms as int) as nat)
        + " seconds already played."@
}

/// The line that announces the next query.
pub open spec fn spec_next_check_line(millis: nat) -> Seq<char> {
    "Checking again in "@ + spec_decimal(spec_whole_seconds(millis as int) as nat)
        + " seconds..."@
}

/// The line that announces an advertisement and the mute.
pub open spec fn spec_ad_line(ad_length_ms: nat) -> Seq<char> {
    "An AD is playing. Muting for "@ + spec_decimal(
        spec_whole_seconds(ad_length_ms as int) as nat,
    ) + " seconds..."@
}

/// The line shown after a sleep.
pub open spec fn spec_waited_line(millis: nat) -> Seq<char> {
    "Waited for "@ + spec_decimal(spec_whole_seconds(millis as int) as nat) + " seconds"@
}

fn digit_str(digit: u64) -> (s: &'static str)
    requires
        digit < 10,
    ensures
        s@ == seq![digit_char(digit as int)],
{
    proof {
        reveal_strlit("0");
        reveal_strlit("1");
        reveal_strlit("2");
        reveal_strlit("3");
        reveal_strlit("4");
        reveal_strlit("5");
        reveal_strlit("6");
        reveal_strlit("7");
        reveal_strlit("8");
        reveal_strlit("9");
    }
    let s = if digit == 0 {
        "0"
    } else if digit == 1 {
        "1"
    } else if digit == 2 {
        "2"
    } else if digit == 3 {
        "3"
    } else if digit == 4 {
        "4"
    } else if digit == 5 {
        "5"
    } else if digit == 6 {
        "6"
    } else if digit == 7 {
        "7"
    } else if digit == 8 {
        "8"
    } else {
        "9"
    };
    assert(s@ =~= seq![digit_char(digit as int)]);
    s
}

/// Writes a number in decimal notation.
pub fn decimal(n: u64) -> (text: String)
    ensures
        text@ == spec_decimal(n as nat),
    decreases n,
{
    if n < 10 {
        String::from_str(digit_str(n))
    } else {
        let mut text = decimal(n / 10);
        let last = digit_str(n % 10);
        text.append(last);
        assert(text@ =~= spec_decimal(n as nat));
        text
    }
}

/// The views of the names in a list, in order.
pub open spec fn name_views(names: Seq<String>) -> Seq<Seq<char>> {
    Seq::new(names.len(), |i: int| names[i]@)
}

/// Puts the artists' names in one line, separated by commas.
pub fn format_artist_vec(artists: &Vec<String>) -> (line: String)
    ensures
        line@ == spec_join(name_views(artists@)),
{
    let mut line = String::new();
    let mut i: usize = 0;
    while i < artists.len()
        invariant
            i <= artists@.len(),
            line@ == spec_join(name_views(artists@).take(i as int)),
        decreases artists@.len() - i,
    {
        let ghost before = name_views(artists@).take(i as int);
        let ghost after = name_views(artists@).take(i + 1);
        if i > 0 {
            line.append(", ");
        }
        line.append(artists[i].as_str());
        proof {
            assert(after.drop_last() =~= before);
            assert(after.last() == artists@[i as int]@);
            if i == 0 {
                assert(line@ =~= after[0]);
            }
        }
        i += 1;
    }
    proof {
        assert(name_views(artists@).take(i as int) =~= name_views(artists@));
    }
    line
}

/// Composes the line that describes the content now playing: its kind, its
/// name, its artists, and the whole seconds it lasts and has played.
pub fn now_playing_line(info: &TrackInfo, progress_ms: u64) -> (line: String)
    ensures
        line@ == spec_now_playing_line(info@, progress_ms as nat),
{
    let mut line = String::from_str("Currently playing ");
    line.append(info.kind.as_str());
    line.append(" is ");
    line.append(info.name.as_str());
    line.append(" by ");
    line.append(format_artist_vec(&info.artists).as_str());
    line.append(" lasting for ");
    line.append(decimal(whole_seconds(info.duration_ms)).as_str());
    line.append(" seconds with ");
    line.append(decimal(whole_seconds(progress_ms)).as_str());
    line.append(" seconds already played.");
    proof {
        assert(info@.artists =~= name_views(info.artists@));
    }
    line
}

/// Composes the line that announces the next query, in whole seconds.
pub fn next_check_line(millis: u64) -> (line: String)
    ensures
        line@ == spec_next_check_line(millis as nat),
{
    let mut line = String::from_str("Checking again in ");
    line.append(decimal(whole_seconds(millis)).as_str());
    line.append(" seconds...");
    line
}

/// Composes the line that announces an advertisement and for how many whole
/// seconds the output stays muted.
pub fn ad_line(ad_length_ms: u64) -> (line: String)
    ensures
        line@ == spec_ad_line(ad_length_ms as nat),
{
    let mut line = String::from_str("An AD is playing. Muting for ");
    line.append(decimal(whole_seconds(ad_length_ms)).as_str());
    line.append(" seconds...");
    line
}

/// Composes the line shown after a sleep, in whole seconds.
pub fn waited_line(millis: u64) -> (line: String)
    ensures
        line@ == spec_waited_line(millis as nat),
{
    let mut line = String::from_str("Waited for ");
    line.append(decimal(whole_seconds(millis)).as_str());
    line.append(" seconds");
    line
}

} // verus!
