//! The Android debug bridge: what to ask of it, and what its answers mean.
use vstd::prelude::*;
use vstd::string::*;

use crate::text;
use crate::text::{ascii_at, push_dec};

verus! {

/// Index of the first line feed at or after `from`, or the length where there is none.
pub open spec fn line_feed(text: Seq<u8>, from: int) -> int
    decreases text.len() - from,
{
    if from >= text.len() {
        text.len() as int
    } else if text[from] == 10 {
        from
    } else {
        line_feed(text, from + 1)
    }
}

/// The first line of `text`, without the line feed, or carriage return and line feed, that ends it.
pub open spec fn first_line(text: Seq<u8>) -> Seq<u8> {
    let end = line_feed(text, 0);
    if end < text.len() && end > 0 && text[end - 1] == 13 {
        text.take(end - 1)
    } else {
        text.take(end)
    }
}

/// What follows the first line of `text`.
pub open spec fn other_lines(text: Seq<u8>) -> Seq<u8> {
    let end = line_feed(text, 0);
    if end < text.len() {
        text.skip(end + 1)
    } else {
        Seq::empty()
    }
}

pub proof fn line_feed_bounds(text: Seq<u8>, from: int)
    requires
        0 <= from <= text.len(),
    ensures
        from <= line_feed(text, from) <= text.len(),
        line_feed(text, from) < text.len() ==> text[line_feed(text, from)] == 10,
        forall|k: int| from <= k < line_feed(text, from) ==> text[k] != 10,
    decreases text.len() - from,
{
    if from < text.len() && text[from] != 10 {
        line_feed_bounds(text, from + 1);
    }
}

/// The lines of a text.
pub open spec fn lines(text: Seq<u8>) -> Seq<Seq<u8>>
    decreases text.len(),
{
    if text.len() == 0 {
        Seq::empty()
    } else {
        proof {
            line_feed_bounds(text, 0);
        }
        seq![first_line(text)] + lines(other_lines(text))
    }
}

/// Whether a line of `adb devices` names a device that is ready for use. Devices that are
/// `offline` or `unauthorized` end in those words instead.
pub open spec fn names_device(line: Seq<u8>) -> bool {
    line.len() >= 6 && line.skip(line.len() - 6) == text::ascii_bytes("device"@)
}

/// Devices that wait for the user's consent or are out of reach do not count.
pub proof fn unready_devices_do_not_count(line: Seq<u8>, state: Seq<char>)
    requires
        state == "unauthorized"@ || state == "offline"@,
        line.len() >= state.len(),
        line.skip(line.len() - state.len()) == text::ascii_bytes(state),
    ensures
        !names_device(line),
{
    reveal_strlit("unauthorized");
    reveal_strlit("offline");
    reveal_strlit("device");
    let last = line.len() - 1;
    assert(line[last] == line.skip(line.len() - state.len())[state.len() - 1]);
    assert(line[last - 1] == line.skip(line.len() - state.len())[state.len() - 2]);
    if names_device(line) {
        assert(line[last] == line.skip(line.len() - 6)[5]);
        assert(line[last - 1] == line.skip(line.len() - 6)[4]);
    }
}

/// Whether the output of `adb devices` lists a device that is connected and authorised. The first
/// line is the heading.
pub open spec fn lists_device(output: Seq<u8>) -> bool {
    exists|k: int| 1 <= k < lines(output).len() && names_device(#[trigger] lines(output)[k])
}

proof fn lemma_line_feed_shift(text: Seq<u8>, base: int, from: int)
    requires
        0 <= base <= from <= text.len(),
    ensures
        line_feed(text, from) == base + line_feed(text.skip(base), from - base),
    decreases text.len() - from,
{
    if from < text.len() && text[from] != 10 {
        lemma_line_feed_shift(text, base, from + 1);
    }
}

fn find_line_feed(text: &[u8], from: usize) -> (r: usize)
    requires
        from <= text@.len(),
    ensures
        r == line_feed(text@, from as int),
{
    let mut i: usize = from;
    while i < text.len() && text[i] != 10
        invariant
            from <= i <= text@.len(),
            line_feed(text@, from as int) == line_feed(text@, i as int),
        decreases text@.len() - i,
    {
        i += 1;
    }
    i
}

/// Reads the output of `adb devices`: whether at least one device is connected and authorised.
///
/// Only ASCII matters here, so bytes that are no valid text do no harm.
pub fn device_connected(output: &[u8]) -> (r: bool)
    ensures
        r == lists_device(output@),
{
    proof {
        assert(output@.skip(0) =~= output@);
        assert(Seq::<Seq<u8>>::empty() + lines(output@) =~= lines(output@));
    }
    let ghost mut done: Seq<Seq<u8>> = Seq::empty();
    let mut pos: usize = 0;
    let mut heading: bool = true;
    while pos < output.len()
        invariant
            pos <= output@.len(),
            lines(output@) == done + lines(output@.skip(pos as int)),
            heading == (done.len() == 0),
            forall|k: int| 1 <= k < done.len() ==> !names_device(#[trigger] done[k]),
        decreases output@.len() - pos,
    {
        let ghost rest = output@.skip(pos as int);
        let end: usize = find_line_feed(output, pos);
        proof {
            line_feed_bounds(output@, pos as int);
            lemma_line_feed_shift(output@, pos as int, pos as int);
        }
        let stop: usize = if end < output.len() && end > pos && output[end - 1] == 13 {
            end - 1
        } else {
            end
        };
        let ghost line = output@.subrange(pos as int, stop as int);
        assert(line =~= first_line(rest));
        proof {
            reveal_strlit("device");
        }
        let ready: bool = if stop - pos >= 6 {
            assert(line.skip(line.len() - 6) =~= output@.subrange(stop - 6, stop as int));
            ascii_at(output, stop - 6, "device")
        } else {
            false
        };
        assert(ready == names_device(line));
        let next: usize = if end < output.len() {
            end + 1
        } else {
            end
        };
        proof {
            assert(other_lines(rest) =~= output@.skip(next as int));
            assert(lines(rest) == seq![line] + lines(output@.skip(next as int)));
            assert(done + lines(rest) =~= done.push(line) + lines(output@.skip(next as int)));
        }
        if ready && !heading {
            assert(lines(output@)[done.len() as int] == line);
            return true;
        }
        heading = false;
        proof {
            done = done.push(line);
        }
        pos = next;
    }
    assert(lines(output@) =~= done);
    false
}

/// The name of a local port in the bridge's commands.
pub open spec fn port_spec(port: u16) -> Seq<char> {
    "tcp:"@ + text::dec(port as nat)
}

fn port_name(port: u16) -> (r: String)
    ensures
        r@ == port_spec(port),
{
    let mut out: String = "tcp:".to_string();
    push_dec(&mut out, port as u64);
    out
}

/// Arguments that make `adb` forward the local `port` to the same port of the phone.
pub fn forward(port: u16) -> (r: Vec<String>)
    ensures
        r.deep_view() == seq!["forward"@, port_spec(port), port_spec(port)],
{
    let mut args: Vec<String> = Vec::new();
    args.push("forward".to_string());
    args.push(port_name(port));
    args.push(port_name(port));
    assert(args.deep_view() =~= seq!["forward"@, port_spec(port), port_spec(port)]);
    args
}

/// Arguments that make `adb` drop the forwarding of the local `port`.
pub fn remove_forward(port: u16) -> (r: Vec<String>)
    ensures
        r.deep_view() == seq!["forward"@, "--remove"@, port_spec(port)],
{
    let mut args: Vec<String> = Vec::new();
    args.push("forward".to_string());
    args.push("--remove".to_string());
    args.push(port_name(port));
    assert(args.deep_view() =~= seq!["forward"@, "--remove"@, port_spec(port)]);
    args
}

/// Whether the word `device` stands in `output` from `at` on and ends a line there: with the output,
/// before a line feed, or before a carriage return and a line feed.
pub open spec fn ends_line_with_device(output: Seq<u8>, at: int) -> bool {
    &&& 0 <= at && at + 6 <= output.len()
    &&& output[at] == 100 && output[at + 1] == 101 && output[at + 2] == 118
    &&& output[at + 3] == 105 && output[at + 4] == 99 && output[at + 5] == 101
    &&& at + 6 == output.len() || output[at + 6] == 10 || (at + 7 < output.len() && output[at + 6]
        == 13 && output[at + 7] == 10)
}

proof fn lemma_names_device(line: Seq<u8>)
    ensures
        names_device(line) <==> {
            let at = line.len() - 6;
            &&& at >= 0
            &&& line[at] == 100 && line[at + 1] == 101 && line[at + 2] == 118
            &&& line[at + 3] == 105 && line[at + 4] == 99 && line[at + 5] == 101
        },
{
    reveal_strlit("device");
    let word = text::ascii_bytes("device"@);
    if line.len() >= 6 {
        let tail = line.skip(line.len() - 6);
        assert(tail[0] == line[line.len() - 6] && tail[1] == line[line.len() - 5]);
        assert(tail[2] == line[line.len() - 4] && tail[3] == line[line.len() - 3]);
        assert(tail[4] == line[line.len() - 2] && tail[5] == line[line.len() - 1]);
        assert(word[0] == 100 && word[1] == 101 && word[2] == 118);
        assert(word[3] == 105 && word[4] == 99 && word[5] == 101);
        if tail[0] == 100 && tail[1] == 101 && tail[2] == 118 && tail[3] == 105 && tail[4] == 99
            && tail[5] == 101 {
            assert(tail =~= word);
        }
    }
}

proof fn lemma_first_line_names(text: Seq<u8>)
    requires
        text.len() > 0,
    ensures
        names_device(first_line(text)) <==> exists|at: int|
            at + 6 <= line_feed(text, 0) && #[trigger] ends_line_with_device(text, at),
{
    line_feed_bounds(text, 0);
    let end = line_feed(text, 0);
    let line = first_line(text);
    lemma_names_device(line);
    if names_device(line) {
        assert(ends_line_with_device(text, line.len() - 6));
    }
    if exists|at: int| at + 6 <= end && #[trigger] ends_line_with_device(text, at) {
        let at = choose|at: int| at + 6 <= end && #[trigger] ends_line_with_device(text, at);
        assert(at + 6 == line.len());
    }
}

proof fn lemma_listed_lines(text: Seq<u8>)
    ensures
        (exists|k: int| 0 <= k < lines(text).len() && names_device(#[trigger] lines(text)[k]))
            <==> exists|at: int| #[trigger] ends_line_with_device(text, at),
    decreases text.len(),
{
    if text.len() > 0 {
        line_feed_bounds(text, 0);
        let end = line_feed(text, 0);
        let rest = other_lines(text);
        lemma_listed_lines(rest);
        lemma_first_line_names(text);
        let all = lines(text);
        assert(all[0] == first_line(text));
        assert(forall|k: int| 0 <= k < lines(rest).len() ==> all[k + 1] == #[trigger] lines(rest)[k]);
        if exists|k: int| 0 <= k < all.len() && names_device(#[trigger] all[k]) {
            let k = choose|k: int| 0 <= k < all.len() && names_device(#[trigger] all[k]);
            if k > 0 {
                assert(lines(rest)[k - 1] == all[k]);
                let at = choose|at: int| #[trigger] ends_line_with_device(rest, at);
                assert(ends_line_with_device(text, end + 1 + at));
            }
        }
        if exists|at: int| #[trigger] ends_line_with_device(text, at) {
            let at = choose|at: int| #[trigger] ends_line_with_device(text, at);
            if at + 6 <= end {
                assert(names_device(all[0]));
            } else {
                assert(at > end);
                assert(ends_line_with_device(rest, at - end - 1));
                let k = choose|k: int|
                    0 <= k < lines(rest).len() && names_device(#[trigger] lines(rest)[k]);
                assert(names_device(all[k + 1]));
            }
        }
    }
}

/// A device is found exactly if somewhere below the first line a line ends in `device`, whatever the
/// other lines say and whichever way lines end.
pub proof fn a_device_is_found_where_a_line_ends_in_device(output: Seq<u8>)
    ensures
        lists_device(output) <==> exists|feed: int, at: int|
            feed < at && #[trigger] is_feed(output, feed) && #[trigger] ends_line_with_device(
                output,
                at,
            ),
{
    if output.len() > 0 {
        line_feed_bounds(output, 0);
        let end = line_feed(output, 0);
        let rest = other_lines(output);
        let all = lines(output);
        lemma_listed_lines(rest);
        assert(forall|k: int| 0 <= k < lines(rest).len() ==> all[k + 1] == #[trigger] lines(rest)[k]);
        if lists_device(output) {
            let k = choose|k: int| 1 <= k < all.len() && names_device(#[trigger] all[k]);
            assert(lines(rest)[k - 1] == all[k]);
            let at = choose|at: int| #[trigger] ends_line_with_device(rest, at);
            assert(ends_line_with_device(output, end + 1 + at));
            assert(is_feed(output, end));
        }
        if exists|feed: int, at: int|
            feed < at && #[trigger] is_feed(output, feed) && #[trigger] ends_line_with_device(
                output,
                at,
            ) {
            let (feed, at) = choose|feed: int, at: int|
                feed < at && #[trigger] is_feed(output, feed) && #[trigger] ends_line_with_device(
                    output,
                    at,
                );
            assert(end <= feed);
            assert(ends_line_with_device(rest, at - end - 1));
            let k = choose|k: int|
                0 <= k < lines(rest).len() && names_device(#[trigger] lines(rest)[k]);
            assert(names_device(all[k + 1]));
        }
    }
}

/// Whether a line feed stands at `at`.
pub open spec fn is_feed(output: Seq<u8>, at: int) -> bool {
    0 <= at < output.len() && output[at] == 10
}

/// A port is named by its number, so that different ports have different names.
pub proof fn ports_are_told_apart(a: u16, b: u16)
    ensures
        port_spec(a) == "tcp:"@ + text::dec(a as nat),
        text::numeral_value(port_spec(a).skip("tcp:"@.len() as int)) == a,
        port_spec(a) == port_spec(b) ==> a == b,
{
    text::a_numeral_reads_back(a as nat);
    text::a_numeral_reads_back(b as nat);
    assert(port_spec(a).skip("tcp:"@.len() as int) =~= text::dec(a as nat));
    assert(port_spec(b).skip("tcp:"@.len() as int) =~= text::dec(b as nat));
}

} // verus!
