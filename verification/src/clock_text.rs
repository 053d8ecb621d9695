//! The written form of a time of day: `hh:mm`.

use vstd::prelude::*;
use itertools::Itertools;
use crate::clock::ClockTime;
use crate::decimal::{
    digits_value, is_digit, parse_number, parse_u32, unsigned_part, DIGIT_ZERO, PLUS_SIGN,
};

verus! {

/// The byte `:`, which parts the hour from the minute.
pub const COLON: u8 = 0x3a;

/// The fields of `s` between occurrences of `sep`. A string without the
/// separator is one field; each separator starts a new, possibly empty,
/// field.
pub open spec fn split(s: Seq<u8>, sep: u8) -> Seq<Seq<u8>>
    decreases s.len(),
{
    if s.len() == 0 {
        seq![Seq::<u8>::empty()]
    } else {
        let before = split(s.drop_last(), sep);
        if s.last() == sep {
            before.push(Seq::<u8>::empty())
        } else {
            before.drop_last().push(before.last().push(s.last()))
        }
    }
}

/// Each field read as a numeral.
pub open spec fn read_fields(fields: Seq<Seq<u8>>) -> Seq<Option<u32>> {
    Seq::new(fields.len(), |i: int| parse_u32(fields[i]))
}

/// The two items of a sequence that holds exactly two.
pub open spec fn pair_of(items: Seq<Option<u32>>) -> Option<(Option<u32>, Option<u32>)> {
    if items.len() == 2 {
        Some((items[0], items[1]))
    } else {
        None
    }
}

/// Reads `hh:mm`: exactly two fields around one colon, each a numeral.
pub open spec fn parse_clock(s: Seq<u8>) -> Option<ClockTime> {
    match pair_of(read_fields(split(s, COLON))) {
        Some((Some(hour), Some(minute))) => Some(
            ClockTime { hour: hour as nat, minute: minute as nat },
        ),
        _ => None,
    }
}

/// `s` holds the separator at `at` and nowhere else.
pub open spec fn only_separator_at(s: Seq<u8>, sep: u8, at: int) -> bool {
    &&& 0 <= at < s.len()
    &&& forall|k: int| 0 <= k < s.len() ==> (#[trigger] s[k] == sep <==> k == at)
}

/// `s` is the text of `clock`, with its colon at `colon`: a numeral for the
/// hour, the colon, a numeral for the minute.
pub open spec fn is_clock_text(s: Seq<u8>, colon: int, clock: ClockTime) -> bool {
    &&& 0 <= colon < s.len()
    &&& s[colon] == COLON
    &&& parse_u32(s.take(colon)) matches Some(hour) && hour == clock.hour
    &&& parse_u32(s.skip(colon + 1)) matches Some(minute) && minute == clock.minute
}

/// The two digits that show `n`, for `n` below a hundred.
pub open spec fn two_digits(n: nat) -> Seq<u8> {
    seq![(DIGIT_ZERO + n / 10) as u8, (DIGIT_ZERO + n % 10) as u8]
}

/// The text `hh:mm` of a clock reading whose parts are below a hundred.
pub open spec fn clock_text(clock: ClockTime) -> Seq<u8> {
    two_digits(clock.hour) + seq![COLON] + two_digits(clock.minute)
}

/// The fields put back together, with the separator between each two.
pub open spec fn join(fields: Seq<Seq<u8>>, sep: u8) -> Seq<u8>
    decreases fields.len(),
{
    if fields.len() == 0 {
        Seq::<u8>::empty()
    } else if fields.len() == 1 {
        fields[0]
    } else {
        join(fields.drop_last(), sep).push(sep) + fields.last()
    }
}

/// Splitting takes a string apart at its separators and loses nothing:
/// there is at least one field, no field holds the separator, and the
/// fields joined by the separator are the string again.
pub proof fn lemma_split_then_join(s: Seq<u8>, sep: u8)
    ensures
        split(s, sep).len() >= 1,
        forall|j: int, k: int|
            0 <= j < split(s, sep).len() && 0 <= k < split(s, sep)[j].len() ==> #[trigger] split(
                s,
                sep,
            )[j][k] != sep,
        join(split(s, sep), sep) == s,
    decreases s.len(),
{
    let fields = split(s, sep);
    if s.len() == 0 {
        assert(join(fields, sep) == s);
    } else {
        let init = s.drop_last();
        let before = split(init, sep);
        lemma_split_then_join(init, sep);
        assert(init.push(s.last()) == s);
        if s.last() == sep {
            assert(fields.drop_last() == before);
            assert(join(fields, sep) == join(before, sep).push(sep) + Seq::<u8>::empty());
            assert(join(fields, sep) == s);
            assert forall|j: int, k: int|
                0 <= j < fields.len() && 0 <= k < fields[j].len() implies #[trigger] fields[j][k]
                != sep by {
                assert(fields[j] == before[j]);
            }
        } else {
            let grown = before.last().push(s.last());
            assert(fields == before.drop_last().push(grown));
            assert(fields.drop_last() == before.drop_last());
            if before.len() == 1 {
                assert(join(before, sep) == before.last());
                assert(join(fields, sep) == grown);
            } else {
                assert(join(fields, sep) == join(before.drop_last(), sep).push(sep) + grown);
                assert(join(before, sep) == join(before.drop_last(), sep).push(sep)
                    + before.last());
                assert(join(before.drop_last(), sep).push(sep) + grown == (join(
                    before.drop_last(),
                    sep,
                ).push(sep) + before.last()).push(s.last()));
            }
            assert(join(fields, sep) == s);
            assert forall|j: int, k: int|
                0 <= j < fields.len() && 0 <= k < fields[j].len() implies #[trigger] fields[j][k]
                != sep by {
                if j < fields.len() - 1 {
                    assert(fields[j] == before[j]);
                } else if k < before.last().len() {
                    assert(fields[j][k] == before[before.len() - 1][k]);
                }
            }
        }
    }
}

/// A string without the separator is a single field.
pub proof fn lemma_split_without_separator(s: Seq<u8>, sep: u8)
    requires
        forall|k: int| 0 <= k < s.len() ==> s[k] != sep,
    ensures
        split(s, sep) == seq![s],
    decreases s.len(),
{
    if s.len() == 0 {
        assert(s == Seq::<u8>::empty());
    } else {
        lemma_split_without_separator(s.drop_last(), sep);
        assert(s.drop_last().push(s.last()) == s);
        assert(seq![s.drop_last()].drop_last().push(s) == seq![s]);
    }
}

/// A string with one separator is the two fields around it.
pub proof fn lemma_split_at_only_separator(s: Seq<u8>, sep: u8, at: int)
    requires
        only_separator_at(s, sep, at),
    ensures
        split(s, sep) == seq![s.take(at), s.skip(at + 1)],
    decreases s.len(),
{
    let init = s.drop_last();
    if at == s.len() - 1 {
        assert(s[at] == sep);
        assert forall|k: int| 0 <= k < init.len() implies init[k] != sep by {
            assert(init[k] == s[k]);
        }
        lemma_split_without_separator(init, sep);
        assert(init == s.take(at));
        assert(s.skip(at + 1) == Seq::<u8>::empty());
        assert(seq![init].push(Seq::<u8>::empty()) == seq![s.take(at), s.skip(at + 1)]);
    } else {
        assert(s[s.len() - 1] != sep);
        assert forall|k: int| 0 <= k < init.len() implies (#[trigger] init[k] == sep <==> k
            == at) by {
            assert(init[k] == s[k]);
        }
        lemma_split_at_only_separator(init, sep, at);
        assert(init.take(at) == s.take(at));
        assert(init.skip(at + 1).push(s.last()) == s.skip(at + 1));
        assert(seq![init.take(at), init.skip(at + 1)].drop_last().push(s.skip(at + 1)) == seq![
            s.take(at),
            s.skip(at + 1),
        ]);
    }
}

/// Splitting gives one field for a string without the separator and two
/// fields for a string with exactly one, and in no other case.
pub proof fn lemma_split_counts_separators(s: Seq<u8>, sep: u8)
    ensures
        split(s, sep).len() >= 1,
        split(s, sep).len() == 1 <==> forall|k: int| 0 <= k < s.len() ==> s[k] != sep,
        split(s, sep).len() == 2 <==> exists|at: int| only_separator_at(s, sep, at),
    decreases s.len(),
{
    if s.len() == 0 {
        assert forall|at: int| !only_separator_at(s, sep, at) by {}
    } else {
        let init = s.drop_last();
        let last = s.len() - 1;
        lemma_split_counts_separators(init, sep);
        assert forall|k: int| 0 <= k < init.len() implies init[k] == s[k] by {}
        if s.last() == sep {
            assert(s[last] == sep);
            if split(s, sep).len() == 2 {
                assert(only_separator_at(s, sep, last)) by {
                    assert forall|k: int| 0 <= k < s.len() implies (#[trigger] s[k] == sep <==> k
                        == last) by {
                        if k < last {
                            assert(init[k] != sep);
                        }
                    }
                }
            }
            if exists|at: int| only_separator_at(s, sep, at) {
                let at = choose|at: int| only_separator_at(s, sep, at);
                assert(at == last);
                assert forall|k: int| 0 <= k < init.len() implies init[k] != sep by {
                    assert(s[k] != sep);
                }
            }
        } else {
            assert(s[last] != sep);
            if split(init, sep).len() == 2 {
                let at = choose|at: int| only_separator_at(init, sep, at);
                assert(only_separator_at(s, sep, at)) by {
                    assert forall|k: int| 0 <= k < s.len() implies (#[trigger] s[k] == sep <==> k
                        == at) by {
                        if k < last {
                            assert(init[k] == s[k]);
                        }
                    }
                }
            }
            if exists|at: int| only_separator_at(s, sep, at) {
                let at = choose|at: int| only_separator_at(s, sep, at);
                assert(at != last);
                assert(only_separator_at(init, sep, at)) by {
                    assert forall|k: int| 0 <= k < init.len() implies (#[trigger] init[k] == sep
                        <==> k == at) by {
                        assert(init[k] == s[k]);
                    }
                }
            }
            if forall|k: int| 0 <= k < init.len() ==> init[k] != sep {
                assert forall|k: int| 0 <= k < s.len() implies s[k] != sep by {
                    if k < last {
                        assert(init[k] == s[k]);
                    }
                }
            }
        }
    }
}

/// A numeral holds no colon.
pub proof fn lemma_numeral_has_no_colon(s: Seq<u8>)
    requires
        parse_u32(s) is Some,
    ensures
        forall|k: int| 0 <= k < s.len() ==> s[k] != COLON,
{
    let digits = unsigned_part(s);
    assert forall|k: int| 0 <= k < s.len() implies s[k] != COLON by {
        if s[0] == PLUS_SIGN {
            if k > 0 {
                assert(is_digit(digits[k - 1]));
            }
        } else {
            assert(is_digit(digits[k]));
        }
    }
}

/// What the texts of a clock reading are: a string reads as `clock` exactly
/// when a colon parts it into a numeral for the hour and a numeral for the
/// minute. Every other string, whatever its number of fields and whatever
/// stands in them, reads as nothing.
pub proof fn lemma_parse_clock_accepts(s: Seq<u8>, clock: ClockTime)
    ensures
        parse_clock(s) == Some(clock) <==> exists|colon: int| is_clock_text(s, colon, clock),
{
    lemma_split_counts_separators(s, COLON);
    if parse_clock(s) == Some(clock) {
        let at = choose|at: int| only_separator_at(s, COLON, at);
        lemma_split_at_only_separator(s, COLON, at);
        assert(s[at] == COLON);
        assert(is_clock_text(s, at, clock));
    }
    if exists|colon: int| is_clock_text(s, colon, clock) {
        let colon = choose|colon: int| is_clock_text(s, colon, clock);
        lemma_numeral_has_no_colon(s.take(colon));
        lemma_numeral_has_no_colon(s.skip(colon + 1));
        assert(only_separator_at(s, COLON, colon)) by {
            assert forall|k: int| 0 <= k < s.len() implies (#[trigger] s[k] == COLON <==> k
                == colon) by {
                if k < colon {
                    assert(s.take(colon)[k] == s[k]);
                } else if k > colon {
                    assert(s.skip(colon + 1)[k - colon - 1] == s[k]);
                }
            }
        }
        lemma_split_at_only_separator(s, COLON, colon);
    }
}

/// Two digits read back as the number they show.
pub proof fn lemma_two_digits_read_back(n: nat)
    requires
        n < 100,
    ensures
        parse_u32(two_digits(n)) == Some(n as u32),
{
    let s = two_digits(n);
    assert(s.len() == 2);
    assert(is_digit(s[0]) && is_digit(s[1]));
    assert(unsigned_part(s) == s);
    assert(s.drop_last() == seq![s[0]]);
    assert(s.drop_last().drop_last() == Seq::<u8>::empty());
    assert(digits_value(s.drop_last().drop_last()) == 0);
    assert(digits_value(s.drop_last()) == n / 10);
    assert(digits_value(s) == n);
}

/// Reading round-trips: the text `hh:mm` of a clock reading, each part
/// written with two digits, reads back as that reading. This holds of every
/// hour from 00 to 23 and every minute from 00 to 59, and of two-digit
/// parts beyond those, on which no range is imposed.
pub proof fn lemma_clock_text_reads_back(clock: ClockTime)
    requires
        clock.hour < 100,
        clock.minute < 100,
    ensures
        parse_clock(clock_text(clock)) == Some(clock),
{
    let s = clock_text(clock);
    lemma_two_digits_read_back(clock.hour);
    lemma_two_digits_read_back(clock.minute);
    assert(s.take(2) == two_digits(clock.hour));
    assert(s.skip(3) == two_digits(clock.minute));
    assert(s[2] == COLON);
    assert(is_clock_text(s, 2, clock));
    lemma_parse_clock_accepts(s, clock);
}

/// `Itertools::collect_tuple` over the items of a vector, asked for a pair:
/// the two items in order when the vector holds exactly two, else nothing.
#[verifier::external_body]
pub(crate) fn collect_pair(items: Vec<Option<u32>>) -> (pair: Option<(Option<u32>, Option<u32>)>)
    ensures
        pair == pair_of(items@),
{
    items.into_iter().collect_tuple()
}

/// Reads every colon-separated field of `bytes` as a numeral.
pub(crate) fn number_fields(bytes: &[u8]) -> (tokens: Vec<Option<u32>>)
    ensures
        tokens@ == read_fields(split(bytes@, COLON)),
{
    let mut tokens: Vec<Option<u32>> = Vec::new();
    let mut field_start: usize = 0;
    let mut i: usize = 0;
    assert(bytes@.take(0) == Seq::<u8>::empty());
    assert(bytes@.subrange(0, 0) == Seq::<u8>::empty());
    while i < bytes.len()
        invariant
            field_start <= i <= bytes@.len(),
            split(bytes@.take(i as int), COLON).len() == tokens@.len() + 1,
            split(bytes@.take(i as int), COLON).last() == bytes@.subrange(
                field_start as int,
                i as int,
            ),
            forall|j: int|
                0 <= j < tokens@.len() ==> tokens@[j] == parse_u32(
                    #[trigger] split(bytes@.take(i as int), COLON)[j],
                ),
        decreases bytes.len() - i,
    {
        let ghost before = split(bytes@.take(i as int), COLON);
        let ghost after = split(bytes@.take(i + 1), COLON);
        assert(bytes@.take(i + 1).drop_last() == bytes@.take(i as int));
        assert(bytes@.take(i + 1).last() == bytes@[i as int]);
        if bytes[i] == COLON {
            let token = parse_number(bytes, field_start, i);
            tokens.push(token);
            field_start = i + 1;
            assert(after == before.push(Seq::<u8>::empty()));
            assert(bytes@.subrange(i + 1, i + 1) == Seq::<u8>::empty());
        } else {
            assert(after == before.drop_last().push(before.last().push(bytes@[i as int])));
            assert(bytes@.subrange(field_start as int, i as int).push(bytes@[i as int])
                == bytes@.subrange(field_start as int, i + 1));
        }
        i += 1;
    }
    assert(bytes@.take(bytes@.len() as int) == bytes@);
    let token = parse_number(bytes, field_start, bytes.len());
    tokens.push(token);
    assert(tokens@ =~= read_fields(split(bytes@, COLON)));
    tokens
}

} // verus!
