//! The transport display: the position of the coordinator as a few
//! lines of text. It is a projection of the snapshot and decides nothing.

use crate::player::TempoSnapshot;
use crate::song::{kind_name, strs_view, SongSectionKind};
use crate::text::{append_decimal, append_repeated, decimal, padded, repeated};
use vstd::prelude::*;
use vstd::string::*;

verus! {

/// The labels of the first `count` bars, each filled with spaces to
/// sixteen characters: `1th bar`, `2th bar` and so on.
pub open spec fn bar_labels(count: nat) -> Seq<char>
    decreases count,
{
    if count == 0 {
        Seq::empty()
    } else {
        bar_labels((count - 1) as nat) + padded(decimal(count) + "th bar"@, 16)
    }
}

/// The progress bar of a section of `total` sixteenths of which `done`
/// have been played: a dash for each of those, a star at the one being
/// played, and spaces up to the end of the section.
pub open spec fn progress_bar(done: nat, total: nat) -> Seq<char> {
    repeated(seq!['-'], done) + seq!['*'] + repeated(
        seq![' '],
        if total > done + 1 {
            (total - done - 1) as nat
        } else {
            0
        },
    )
}

/// The six lines of the display: the kind of the section, the position
/// in words, the labels of the section's bars, two rulers that mark
/// quarters and accents, and the progress bar.
pub open spec fn display_lines(kind: SongSectionKind, snapshot: TempoSnapshot) -> Seq<Seq<char>> {
    let bars = snapshot.spec_tot_bars_in_section() as nat;
    seq![
        "  .:[ "@ + kind_name(kind) + " ]:."@,
        "  Now: "@ + snapshot.spec_string_info(),
        "  "@ + bar_labels(bars),
        "  "@ + repeated("1 . 2 . 3 . 4 . "@, bars),
        "  "@ + repeated("V   .   v   .   "@, bars),
        "  "@ + progress_bar(
            (snapshot.spec_cur_1_16ths_in_section_from_1() - 1) as nat,
            snapshot.spec_tot_1_16ths_in_section() as nat,
        ),
    ]
}

/// Puts the labels of the first `count` bars at the end of `text`.
pub fn append_bar_labels(text: &mut String, count: usize)
    ensures
        final(text)@ == old(text)@ + bar_labels(count as nat),
{
    let mut n: usize = 0;
    assert(text@ =~= old(text)@ + bar_labels(0));
    while n < count
        invariant
            n <= count,
            text@ == old(text)@ + bar_labels(n as nat),
        decreases count - n,
    {
        n = n + 1;
        let mut label = String::new();
        append_decimal(&mut label, n);
        label.append("th bar");
        assert(label@ =~= decimal(n as nat) + "th bar"@);
        let width: usize = label.as_str().unicode_len();
        text.append(label.as_str());
        if width < 16 {
            append_repeated(text, " ", 16 - width);
        }
        proof {
            reveal_strlit(" ");
            assert(" "@ =~= seq![' ']);
            assert(text@ =~= old(text)@ + bar_labels(n as nat));
        }
    }
}

/// The lines of the display for the tick at `snapshot` in a section of
/// this kind.
pub fn render_transport_display(kind: SongSectionKind, snapshot: &TempoSnapshot) -> (lines: Vec<
    String,
>)
    requires
        snapshot.displayable(),
    ensures
        strs_view(lines@) == display_lines(kind, *snapshot),
{
    let tot_bars_in_section: usize = snapshot.get_tot_bars_in_section();
    let tot_1_16ths_in_section: usize = snapshot.get_tot_1_16ths_in_section();
    let cur_1_16ths_in_section: usize = snapshot.get_cur_1_16ths_in_section_from_1() - 1;

    let mut title = String::from_str("  .:[ ");
    title.append(kind.name().as_str());
    title.append(" ]:.");

    let mut now = String::from_str("  Now: ");
    now.append(snapshot.string_info().as_str());

    let mut labels = String::from_str("  ");
    append_bar_labels(&mut labels, tot_bars_in_section);

    let mut quarters = String::from_str("  ");
    append_repeated(&mut quarters, "1 . 2 . 3 . 4 . ", tot_bars_in_section);

    let mut accents = String::from_str("  ");
    append_repeated(&mut accents, "V   .   v   .   ", tot_bars_in_section);

    let mut progress = String::from_str("  ");
    append_repeated(&mut progress, "-", cur_1_16ths_in_section);
    progress.append("*");
    let left: usize = if tot_1_16ths_in_section > cur_1_16ths_in_section + 1 {
        tot_1_16ths_in_section - cur_1_16ths_in_section - 1
    } else {
        0
    };
    append_repeated(&mut progress, " ", left);
    proof {
        reveal_strlit("-");
        reveal_strlit("*");
        reveal_strlit(" ");
        assert("-"@ =~= seq!['-']);
        assert("*"@ =~= seq!['*']);
        assert(" "@ =~= seq![' ']);
        assert(progress@ =~= "  "@ + progress_bar(
            cur_1_16ths_in_section as nat,
            tot_1_16ths_in_section as nat,
        ));
    }

    let mut lines: Vec<String> = Vec::new();
    lines.push(title);
    lines.push(now);
    lines.push(labels);
    lines.push(quarters);
    lines.push(accents);
    lines.push(progress);
    assert(strs_view(lines@) =~= display_lines(kind, *snapshot));
    lines
}

} // verus!
