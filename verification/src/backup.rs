//! Backup artifacts: the names under which state is kept before it is changed.

use vstd::prelude::*;

verus! {

/// A moment of local time, to the second.
#[derive(Clone, Copy, Debug, PartialEq, Eq)]
pub struct Timestamp {
    pub year: u16,
    pub month: u8,
    pub day: u8,
    pub hour: u8,
    pub minute: u8,
    pub second: u8,
}

/// The decimal digit that stands for `d`, for `d` below 10.
pub open spec fn decimal_digit(d: int) -> char {
    (d + 48) as u8 as char
}

/// `v` in two decimal digits, for `v` below 100.
pub open spec fn two_digits(v: int) -> Seq<char> {
    seq![decimal_digit(v / 10), decimal_digit(v % 10)]
}

/// `v` in four decimal digits, for `v` below 10000.
pub open spec fn four_digits(v: int) -> Seq<char> {
    two_digits(v / 100) + two_digits(v % 100)
}

/// The stamp `YYYYMMDD_HHMMSS` of a moment.
pub open spec fn stamp_text(t: Timestamp) -> Seq<char> {
    four_digits(t.year as int) + two_digits(t.month as int) + two_digits(t.day as int) + seq!['_']
        + two_digits(t.hour as int) + two_digits(t.minute as int) + two_digits(t.second as int)
}

/// The name of the backup of a configuration file: `<name>.backup_<stamp>`.
pub open spec fn config_backup_text(original_name: Seq<char>, t: Timestamp) -> Seq<char> {
    original_name + ".backup_"@ + stamp_text(t)
}

/// The name of an exported identity-store entry: `<key>_<stamp>.<extension>`.
pub open spec fn store_backup_text(key_name: Seq<char>, t: Timestamp, extension: Seq<char>) -> Seq<
    char,
> {
    key_name + seq!['_'] + stamp_text(t) + seq!['.'] + extension
}

fn push_two_digits(text: &mut String, v: u8)
    requires
        v < 100,
    ensures
        final(text)@ == old(text)@ + two_digits(v as int),
{
    text.push((v / 10 + 48) as char);
    text.push((v % 10 + 48) as char);
}

impl Timestamp {
    /// The fields lie in the ranges of a calendar date and a time of day.
    /// The second may be 60, which a clock reports during a leap second.
    pub open spec fn well_formed(&self) -> bool {
        &&& self.year <= 9999
        &&& 1 <= self.month <= 12
        &&& 1 <= self.day <= 31
        &&& self.hour < 24
        &&& self.minute < 60
        &&& self.second <= 60
    }

    /// The moment with the given fields, if each lies in its range.
    pub fn new(year: u16, month: u8, day: u8, hour: u8, minute: u8, second: u8) -> (t: Option<
        Timestamp,
    >)
        ensures
            t == if (Timestamp { year, month, day, hour, minute, second }).well_formed() {
                Some(Timestamp { year, month, day, hour, minute, second })
            } else {
                None
            },
    {
        if year <= 9999 && 1 <= month && month <= 12 && 1 <= day && day <= 31 && hour < 24
            && minute < 60 && second <= 60 {
            Some(Timestamp { year, month, day, hour, minute, second })
        } else {
            None
        }
    }

    /// The stamp `YYYYMMDD_HHMMSS`.
    pub fn stamp(&self) -> (text: String)
        requires
            self.well_formed(),
        ensures
            text@ == stamp_text(*self),
            text@.len() == 15,
    {
        let mut text = String::new();
        push_two_digits(&mut text, (self.year / 100) as u8);
        push_two_digits(&mut text, (self.year % 100) as u8);
        push_two_digits(&mut text, self.month);
        push_two_digits(&mut text, self.day);
        text.push('_');
        push_two_digits(&mut text, self.hour);
        push_two_digits(&mut text, self.minute);
        push_two_digits(&mut text, self.second);
        text
    }
}

/// The name `<original_name>.backup_<stamp>` of a configuration backup.
pub fn config_backup_name(original_name: &str, at: &Timestamp) -> (name: String)
    requires
        at.well_formed(),
    ensures
        name@ == config_backup_text(original_name@, *at),
{
    let mut name = String::from_str(original_name);
    name.append(".backup_");
    let stamp = at.stamp();
    name.append(stamp.as_str());
    name
}

/// The name `<key_name>_<stamp>.<extension>` of an exported store entry.
pub fn store_backup_name(key_name: &str, at: &Timestamp, extension: &str) -> (name: String)
    requires
        at.well_formed(),
    ensures
        name@ == store_backup_text(key_name@, *at, extension@),
{
    let mut name = String::from_str(key_name);
    name.push('_');
    let stamp = at.stamp();
    name.append(stamp.as_str());
    name.push('.');
    name.append(extension);
    name
}

/// The characters of a stamp, one by one.
pub proof fn lemma_stamp_digits(t: Timestamp)
    ensures
        stamp_text(t).len() == 15,
        stamp_text(t)[0] == decimal_digit(t.year as int / 100 / 10),
        stamp_text(t)[1] == decimal_digit(t.year as int / 100 % 10),
        stamp_text(t)[2] == decimal_digit(t.year as int % 100 / 10),
        stamp_text(t)[3] == decimal_digit(t.year as int % 100 % 10),
        stamp_text(t)[4] == decimal_digit(t.month as int / 10),
        stamp_text(t)[5] == decimal_digit(t.month as int % 10),
        stamp_text(t)[6] == decimal_digit(t.day as int / 10),
        stamp_text(t)[7] == decimal_digit(t.day as int % 10),
        stamp_text(t)[8] == '_',
        stamp_text(t)[9] == decimal_digit(t.hour as int / 10),
        stamp_text(t)[10] == decimal_digit(t.hour as int % 10),
        stamp_text(t)[11] == decimal_digit(t.minute as int / 10),
        stamp_text(t)[12] == decimal_digit(t.minute as int % 10),
        stamp_text(t)[13] == decimal_digit(t.second as int / 10),
        stamp_text(t)[14] == decimal_digit(t.second as int % 10),
{
    assert(four_digits(t.year as int).len() == 4);
}

/// Two moments that differ have stamps that differ, so the backups of two
/// runs that are at least a second apart do not share a name.
pub proof fn lemma_stamps_differ(a: Timestamp, b: Timestamp)
    requires
        a.well_formed(),
        b.well_formed(),
        a != b,
    ensures
        stamp_text(a) != stamp_text(b),
        forall|name: Seq<char>| #[trigger]
            config_backup_text(name, a) != config_backup_text(name, b),
        forall|key_name: Seq<char>, extension: Seq<char>| #[trigger]
            store_backup_text(key_name, a, extension) != store_backup_text(key_name, b, extension),
{
    let sa = stamp_text(a);
    let sb = stamp_text(b);
    lemma_stamp_digits(a);
    lemma_stamp_digits(b);
    if sa == sb {
        assert(sa[0] == sb[0] && sa[1] == sb[1] && sa[2] == sb[2] && sa[3] == sb[3]);
        assert(sa[4] == sb[4] && sa[5] == sb[5] && sa[6] == sb[6] && sa[7] == sb[7]);
        assert(sa[9] == sb[9] && sa[10] == sb[10] && sa[11] == sb[11] && sa[12] == sb[12]);
        assert(sa[13] == sb[13] && sa[14] == sb[14]);
        assert(a.year == b.year);
        assert(a.month == b.month);
        assert(a.day == b.day);
        assert(a.hour == b.hour);
        assert(a.minute == b.minute);
        assert(a.second == b.second);
        assert(false);
    }
    assert forall|name: Seq<char>| #[trigger]
        config_backup_text(name, a) != config_backup_text(name, b) by {
        let ta = config_backup_text(name, a);
        let tb = config_backup_text(name, b);
        let start = (name.len() + ".backup_"@.len()) as int;
        assert(ta.subrange(start, start + 15) =~= sa);
        assert(tb.subrange(start, start + 15) =~= sb);
    }
    assert forall|key_name: Seq<char>, extension: Seq<char>| #[trigger]
        store_backup_text(key_name, a, extension) != store_backup_text(
            key_name,
            b,
            extension,
        ) by {
        let ta = store_backup_text(key_name, a, extension);
        let tb = store_backup_text(key_name, b, extension);
        let start = (key_name.len() + 1) as int;
        assert(ta.subrange(start, start + 15) =~= sa);
        assert(tb.subrange(start, start + 15) =~= sb);
    }
}

} // verus!
