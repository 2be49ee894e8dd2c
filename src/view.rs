//! The text of the dashboard: a title and four body lines, each value rounded
//! to two decimal places.
use vstd::prelude::*;
use crate::metrics::{rounded_div, Reading};
use crate::snapshot::ResourceSnapshot;

verus! {

/// The character of a decimal digit.
pub open spec fn digit_char(d: nat) -> char {
    if d == 0 { '0' }
    else if d == 1 { '1' }
    else if d == 2 { '2' }
    else if d == 3 { '3' }
    else if d == 4 { '4' }
    else if d == 5 { '5' }
    else if d == 6 { '6' }
    else if d == 7 { '7' }
    else if d == 8 { '8' }
    else { '9' }
}

/// The decimal digits of `n`, without leading zeros.
pub open spec fn decimal(n: nat) -> Seq<char>
    decreases n,
{
    if n < 10 {
        seq![digit_char(n)]
    } else {
        decimal(n / 10) + seq![digit_char(n % 10)]
    }
}

/// A value held in hundredths, written with exactly two decimals.
pub open spec fn fixed2(centi: nat) -> Seq<char> {
    decimal(centi / 100) + seq!['.', digit_char((centi / 10) % 10), digit_char(centi % 10)]
}

/// A value held in millionths, rounded to hundredths (halves up).
pub open spec fn to_centi(micro: nat) -> nat {
    rounded_div(micro, 10000)
}

/// `label`, the reading rounded to two decimals, then `suffix`.
pub open spec fn line_text(label: Seq<char>, r: Reading, suffix: Seq<char>) -> Seq<char> {
    label + fixed2(to_centi(r.shown())) + suffix
}

pub open spec fn title_text() -> Seq<char> {
    seq!['S', 'y', 's', 't', 'e', 'm', ' ', 'M', 'o', 'n', 'i', 't', 'o', 'r']
}

/// The four body lines of a snapshot, in order CPU, memory, disk, network.
/// Network throughput is in bytes per second.
pub open spec fn body_lines(s: ResourceSnapshot) -> Seq<Seq<char>> {
    seq![
        line_text(seq!['C', 'P', 'U', ':', ' '], s.cpu, seq!['%']),
        line_text(seq!['M', 'e', 'm', 'o', 'r', 'y', ':', ' '], s.memory, seq!['%']),
        line_text(seq!['D', 'i', 's', 'k', ':', ' '], s.disk, seq!['%']),
        line_text(seq!['N', 'e', 't', 'w', 'o', 'r', 'k', ':', ' '], s.network, seq![' ', 'B', '/', 's']),
    ]
}

/// The lines joined, one newline between each two.
pub open spec fn joined(lines: Seq<Seq<char>>) -> Seq<char>
    decreases lines.len(),
{
    if lines.len() == 0 {
        Seq::empty()
    } else if lines.len() == 1 {
        lines[0]
    } else {
        joined(lines.drop_last()) + seq!['\n'] + lines.last()
    }
}

fn digit_str(d: u64) -> (r: &'static str)
    requires
        d < 10,
    ensures
        r@ == seq![digit_char(d as nat)],
{
    proof {
        reveal_strlit("0");
        reveal_strlit("1");
        reveal_strlit("2");
        reveal_strlit("3");
        reveal_strlit("4");
        reveal_strlit("5");
        reveal_strlit("6");
        reveal_strlit("7");
        reveal_strlit("8");
        reveal_strlit("9");
    }
    match d {
        0 => "0",
        1 => "1",
        2 => "2",
        3 => "3",
        4 => "4",
        5 => "5",
        6 => "6",
        7 => "7",
        8 => "8",
        _ => "9",
    }
}

/// Appends the decimal digits of `n`.
pub fn push_decimal(out: &mut String, n: u64)
    ensures
        final(out)@ == old(out)@ + decimal(n as nat),
    decreases n,
{
    if n >= 10 {
        push_decimal(out, n / 10);
    }
    out.append(digit_str(n % 10));
    proof {
        assert(decimal(n as nat) =~= if n < 10 { seq![digit_char(n as nat)] } else {
            decimal((n / 10) as nat) + seq![digit_char((n % 10) as nat)]
        });
    }
}

/// Appends a value held in hundredths with exactly two decimals.
pub fn push_fixed2(out: &mut String, centi: u64)
    ensures
        final(out)@ == old(out)@ + fixed2(centi as nat),
{
    push_decimal(out, centi / 100);
    out.append(".");
    out.append(digit_str((centi / 10) % 10));
    out.append(digit_str(centi % 10));
    proof {
        reveal_strlit(".");
        assert(final(out)@ =~= old(out)@ + fixed2(centi as nat));
    }
}

/// Rounds a value held in millionths to hundredths, halves up.
pub fn round_to_centi(micro: u64) -> (r: u64)
    ensures
        r as nat == to_centi(micro as nat),
{
    ((micro as u128 * 2 + 10000) / 20000) as u64
}

/// One line of the body: `label`, the reading with two decimals, `suffix`.
/// An unavailable reading is written as zero.
pub fn format_line(label: &str, r: Reading, suffix: &str) -> (t: String)
    ensures
        t@ == line_text(label@, r, suffix@),
{
    let mut t = String::from_str(label);
    push_fixed2(&mut t, round_to_centi(r.value_or_zero()));
    t.append(suffix);
    t
}

/// The body lines of a snapshot.
pub fn format_body_lines(s: &ResourceSnapshot) -> (v: Vec<String>)
    ensures
        v@.len() == 4,
        forall|i: int| 0 <= i < 4 ==> #[trigger] v@[i]@ == body_lines(*s)[i],
{
    proof {
        reveal_strlit("CPU: ");
        reveal_strlit("Memory: ");
        reveal_strlit("Disk: ");
        reveal_strlit("Network: ");
        reveal_strlit("%");
        reveal_strlit(" B/s");
    }
    let mut v: Vec<String> = Vec::new();
    v.push(format_line("CPU: ", s.cpu, "%"));
    v.push(format_line("Memory: ", s.memory, "%"));
    v.push(format_line("Disk: ", s.disk, "%"));
    v.push(format_line("Network: ", s.network, " B/s"));
    proof {
        assert(seq!['C', 'P', 'U', ':', ' '] =~= "CPU: "@);
        assert(seq!['M', 'e', 'm', 'o', 'r', 'y', ':', ' '] =~= "Memory: "@);
        assert(seq!['D', 'i', 's', 'k', ':', ' '] =~= "Disk: "@);
        assert(seq!['N', 'e', 't', 'w', 'o', 'r', 'k', ':', ' '] =~= "Network: "@);
        assert(seq!['%'] =~= "%"@);
        assert(seq![' ', 'B', '/', 's'] =~= " B/s"@);
    }
    v
}

/// Joins lines with one newline between each two.
pub fn join_lines(lines: &Vec<String>) -> (t: String)
    ensures
        t@ == joined(lines@.map_values(|l: String| l@)),
{
    let ghost views = lines@.map_values(|l: String| l@);
    let mut t = String::new();
    let mut i: usize = 0;
    proof {
        reveal_strlit("\n");
        assert(views.take(0) =~= Seq::<Seq<char>>::empty());
    }
    while i < lines.len()
        invariant
            i <= lines@.len(),
            views == lines@.map_values(|l: String| l@),
            t@ == joined(views.take(i as int)),
        decreases lines@.len() - i,
    {
        let ghost before = t@;
        if i > 0 {
            t.append("\n");
        }
        t.append(lines[i].as_str());
        proof {
            reveal_strlit("\n");
            let next = views.take(i + 1);
            assert(next.drop_last() =~= views.take(i as int));
            assert(next.last() == lines@[i as int]@);
            if i == 0 {
                assert(joined(views.take(0)) =~= Seq::<char>::empty());
                assert(t@ =~= joined(next));
            } else {
                assert(before == joined(next.drop_last()));
                assert(t@ =~= before + seq!['\n'] + next.last());
                assert(t@ =~= joined(next));
            }
        }
        i = i + 1;
    }
    proof {
        assert(views.take(lines@.len() as int) =~= views);
    }
    t
}

/// What the render sink is handed on each tick: a title and the body text.
pub struct ViewModel {
    pub title: String,
    pub body: String,
}

/// The view of a snapshot: the fixed title, and the four body lines joined
/// by newlines.
pub fn view_model(s: &ResourceSnapshot) -> (m: ViewModel)
    ensures
        m.title@ == title_text(),
        m.body@ == joined(body_lines(*s)),
{
    let lines = format_body_lines(s);
    let body = join_lines(&lines);
    proof {
        reveal_strlit("System Monitor");
        assert(lines@.map_values(|l: String| l@) =~= body_lines(*s));
    }
    let title = String::from_str("System Monitor");
    proof {
        assert(title@ =~= title_text());
    }
    ViewModel { title, body }
}

} // verus!
