//! Bangla text for dates: numerals, ordinals, the names of months, seasons
//! and weekdays, and the three display lines of a date.
use vstd::prelude::*;
use crate::calendar::BanglaDate;

verus! {

/// The ASCII character of decimal digit `d`.
pub open spec fn ascii_digit(d: int) -> char {
    if d == 0 {
        '0'
    } else if d == 1 {
        '1'
    } else if d == 2 {
        '2'
    } else if d == 3 {
        '3'
    } else if d == 4 {
        '4'
    } else if d == 5 {
        '5'
    } else if d == 6 {
        '6'
    } else if d == 7 {
        '7'
    } else if d == 8 {
        '8'
    } else {
        '9'
    }
}

/// The decimal digits of `n`, most significant first, in ASCII.
pub open spec fn decimal_digits(n: nat) -> Seq<char>
    decreases n,
{
    if n < 10 {
        seq![ascii_digit(n as int)]
    } else {
        decimal_digits(n / 10).push(ascii_digit((n % 10) as int))
    }
}

/// The decimal text of `n` in ASCII, with a leading '-' when negative.
pub open spec fn decimal_text(n: int) -> Seq<char> {
    if n < 0 {
        seq!['-'] + decimal_digits((-n) as nat)
    } else {
        decimal_digits(n as nat)
    }
}

/// The decimal text of `n` with each digit written as a Bangla numeral.
pub open spec fn bangla_numeral(n: int) -> Seq<char> {
    decimal_text(n).map_values(|c: char| bangla_digit_char(c))
}

/// Bangla ordinal of day `day` of a month (1 to 31), else "?".
pub open spec fn ordinal_spec(day: int) -> Seq<char> {
    if day == 1 {
        "১লা"@
    } else if day == 2 {
        "২রা"@
    } else if day == 3 {
        "৩রা"@
    } else if day == 4 {
        "৪ঠা"@
    } else if day == 5 {
        "৫ই"@
    } else if day == 6 {
        "৬ই"@
    } else if day == 7 {
        "৭ই"@
    } else if day == 8 {
        "৮ই"@
    } else if day == 9 {
        "৯ই"@
    } else if day == 10 {
        "১০ই"@
    } else if day == 11 {
        "১১ই"@
    } else if day == 12 {
        "১২ই"@
    } else if day == 13 {
        "১৩ই"@
    } else if day == 14 {
        "১৪ই"@
    } else if day == 15 {
        "১৫ই"@
    } else if day == 16 {
        "১৬ই"@
    } else if day == 17 {
        "১৭ই"@
    } else if day == 18 {
        "১৮ই"@
    } else if day == 19 {
        "১৯শে"@
    } else if day == 20 {
        "২০শে"@
    } else if day == 21 {
        "২১শে"@
    } else if day == 22 {
        "২২শে"@
    } else if day == 23 {
        "২৩শে"@
    } else if day == 24 {
        "২৪শে"@
    } else if day == 25 {
        "২৫শে"@
    } else if day == 26 {
        "২৬শে"@
    } else if day == 27 {
        "২৭শে"@
    } else if day == 28 {
        "২৮শে"@
    } else if day == 29 {
        "২৯শে"@
    } else if day == 30 {
        "৩০শে"@
    } else if day == 31 {
        "৩১শে"@
    } else {
        "?"@
    }
}

/// Name of Bangla month `month` (0 = Boishakh), else "?".
pub open spec fn month_name_spec(month: int) -> Seq<char> {
    if month == 0 {
        "বৈশাখ"@
    } else if month == 1 {
        "জ্যৈষ্ঠ"@
    } else if month == 2 {
        "আষাঢ়"@
    } else if month == 3 {
        "শ্রাবণ"@
    } else if month == 4 {
        "ভাদ্র"@
    } else if month == 5 {
        "আশ্বিন"@
    } else if month == 6 {
        "কার্তিক"@
    } else if month == 7 {
        "অগ্রহায়ণ"@
    } else if month == 8 {
        "পৌষ"@
    } else if month == 9 {
        "মাঘ"@
    } else if month == 10 {
        "ফাল্গুন"@
    } else if month == 11 {
        "চৈত্র"@
    } else {
        "?"@
    }
}

/// Name of the season (ঋতু) of Bangla month `month`, two months to a season, else "?".
pub open spec fn season_name_spec(month: int) -> Seq<char> {
    if month == 0 {
        "গ্রীষ্ম"@
    } else if month == 1 {
        "গ্রীষ্ম"@
    } else if month == 2 {
        "বর্ষা"@
    } else if month == 3 {
        "বর্ষা"@
    } else if month == 4 {
        "শরৎ"@
    } else if month == 5 {
        "শরৎ"@
    } else if month == 6 {
        "হেমন্ত"@
    } else if month == 7 {
        "হেমন্ত"@
    } else if month == 8 {
        "শীত"@
    } else if month == 9 {
        "শীত"@
    } else if month == 10 {
        "বসন্ত"@
    } else if month == 11 {
        "বসন্ত"@
    } else {
        "?"@
    }
}

/// Name of weekday `weekday` (0 = Sunday), else "?".
pub open spec fn weekday_name_spec(weekday: int) -> Seq<char> {
    if weekday == 0 {
        "রবিবার"@
    } else if weekday == 1 {
        "সোমবার"@
    } else if weekday == 2 {
        "মঙ্গলবার"@
    } else if weekday == 3 {
        "বুধবার"@
    } else if weekday == 4 {
        "বৃহস্পতিবার"@
    } else if weekday == 5 {
        "শুক্রবার"@
    } else if weekday == 6 {
        "শনিবার"@
    } else {
        "?"@
    }
}

/// The Bangla digit for an ASCII decimal digit; any other character is left as it is.
pub open spec fn bangla_digit_char(c: char) -> char {
    if c == '0' {
        '০'
    } else if c == '1' {
        '১'
    } else if c == '2' {
        '২'
    } else if c == '3' {
        '৩'
    } else if c == '4' {
        '৪'
    } else if c == '5' {
        '৫'
    } else if c == '6' {
        '৬'
    } else if c == '7' {
        '৭'
    } else if c == '8' {
        '৮'
    } else if c == '9' {
        '৯'
    } else {
        c
    }
}

/// The Bangla glyph of decimal digit `d`.
fn digit_glyph(d: u32) -> (r: &'static str)
    requires
        d < 10,
    ensures
        r@ == seq![bangla_digit_char(ascii_digit(d as int))],
{
    if d == 0 {
        proof {
            reveal_strlit("০");
        }
        "০"
    } else if d == 1 {
        proof {
            reveal_strlit("১");
        }
        "১"
    } else if d == 2 {
        proof {
            reveal_strlit("২");
        }
        "২"
    } else if d == 3 {
        proof {
            reveal_strlit("৩");
        }
        "৩"
    } else if d == 4 {
        proof {
            reveal_strlit("৪");
        }
        "৪"
    } else if d == 5 {
        proof {
            reveal_strlit("৫");
        }
        "৫"
    } else if d == 6 {
        proof {
            reveal_strlit("৬");
        }
        "৬"
    } else if d == 7 {
        proof {
            reveal_strlit("৭");
        }
        "৭"
    } else if d == 8 {
        proof {
            reveal_strlit("৮");
        }
        "৮"
    } else {
        proof {
            reveal_strlit("৯");
        }
        "৯"
    }
}

/// The Bangla ordinal of day `day` of a month, or "?" when it is not 1 to 31.
pub fn ordinal_name(day: i32) -> (r: &'static str)
    ensures
        r@ == ordinal_spec(day as int),
{
    if day == 1 {
        "১লা"
    } else if day == 2 {
        "২রা"
    } else if day == 3 {
        "৩রা"
    } else if day == 4 {
        "৪ঠা"
    } else if day == 5 {
        "৫ই"
    } else if day == 6 {
        "৬ই"
    } else if day == 7 {
        "৭ই"
    } else if day == 8 {
        "৮ই"
    } else if day == 9 {
        "৯ই"
    } else if day == 10 {
        "১০ই"
    } else if day == 11 {
        "১১ই"
    } else if day == 12 {
        "১২ই"
    } else if day == 13 {
        "১৩ই"
    } else if day == 14 {
        "১৪ই"
    } else if day == 15 {
        "১৫ই"
    } else if day == 16 {
        "১৬ই"
    } else if day == 17 {
        "১৭ই"
    } else if day == 18 {
        "১৮ই"
    } else if day == 19 {
        "১৯শে"
    } else if day == 20 {
        "২০শে"
    } else if day == 21 {
        "২১শে"
    } else if day == 22 {
        "২২শে"
    } else if day == 23 {
        "২৩শে"
    } else if day == 24 {
        "২৪শে"
    } else if day == 25 {
        "২৫শে"
    } else if day == 26 {
        "২৬শে"
    } else if day == 27 {
        "২৭শে"
    } else if day == 28 {
        "২৮শে"
    } else if day == 29 {
        "২৯শে"
    } else if day == 30 {
        "৩০শে"
    } else if day == 31 {
        "৩১শে"
    } else {
        "?"
    }
}

/// The name of Bangla month `month` (0 = Boishakh), or "?" when it is not 0 to 11.
pub fn month_name(month: i32) -> (r: &'static str)
    ensures
        r@ == month_name_spec(month as int),
{
    if month == 0 {
        "বৈশাখ"
    } else if month == 1 {
        "জ্যৈষ্ঠ"
    } else if month == 2 {
        "আষাঢ়"
    } else if month == 3 {
        "শ্রাবণ"
    } else if month == 4 {
        "ভাদ্র"
    } else if month == 5 {
        "আশ্বিন"
    } else if month == 6 {
        "কার্তিক"
    } else if month == 7 {
        "অগ্রহায়ণ"
    } else if month == 8 {
        "পৌষ"
    } else if month == 9 {
        "মাঘ"
    } else if month == 10 {
        "ফাল্গুন"
    } else if month == 11 {
        "চৈত্র"
    } else {
        "?"
    }
}

/// The season of Bangla month `month`, or "?" when it is not 0 to 11.
pub fn season_name(month: i32) -> (r: &'static str)
    ensures
        r@ == season_name_spec(month as int),
{
    if month == 0 {
        "গ্রীষ্ম"
    } else if month == 1 {
        "গ্রীষ্ম"
    } else if month == 2 {
        "বর্ষা"
    } else if month == 3 {
        "বর্ষা"
    } else if month == 4 {
        "শরৎ"
    } else if month == 5 {
        "শরৎ"
    } else if month == 6 {
        "হেমন্ত"
    } else if month == 7 {
        "হেমন্ত"
    } else if month == 8 {
        "শীত"
    } else if month == 9 {
        "শীত"
    } else if month == 10 {
        "বসন্ত"
    } else if month == 11 {
        "বসন্ত"
    } else {
        "?"
    }
}

/// The name of weekday `weekday` (0 = Sunday), or "?" when it is not 0 to 6.
pub fn weekday_name(weekday: i32) -> (r: &'static str)
    ensures
        r@ == weekday_name_spec(weekday as int),
{
    if weekday == 0 {
        "রবিবার"
    } else if weekday == 1 {
        "সোমবার"
    } else if weekday == 2 {
        "মঙ্গলবার"
    } else if weekday == 3 {
        "বুধবার"
    } else if weekday == 4 {
        "বৃহস্পতিবার"
    } else if weekday == 5 {
        "শুক্রবার"
    } else if weekday == 6 {
        "শনিবার"
    } else {
        "?"
    }
}

/// The first display line of a date: its ordinal day and its month.
pub open spec fn line1_spec(d: BanglaDate) -> Seq<char> {
    ordinal_spec(d.day as int) + " "@ + month_name_spec(d.month as int) + ","@
}

/// The second display line of a date: its year and the era.
pub open spec fn line2_spec(d: BanglaDate) -> Seq<char> {
    bangla_numeral(d.year as int) + " বঙ্গাব্দ"@
}

/// The third display line of a date: its weekday and its season.
pub open spec fn line3_spec(d: BanglaDate) -> Seq<char> {
    weekday_name_spec(d.weekday as int) + ", "@ + season_name_spec(d.month as int) + "কাল"@
}

/// Margin on each side of the text of the date widget, in pixels.
pub const WIDGET_PADDING: i32 = 8;

/// Width given to one character of the display lines, in pixels.
pub const CHAR_WIDTH: i32 = 11;

/// Narrowest width of the text of the date widget, in pixels.
pub const MIN_TEXT_WIDTH: i32 = 120;

/// Width of the date widget showing `d`: room for the longest of the three
/// display lines, at least `MIN_TEXT_WIDTH`, and the margins.
pub open spec fn widget_width_spec(d: BanglaDate) -> int {
    let longest = if line1_spec(d).len() >= line2_spec(d).len() && line1_spec(d).len()
        >= line3_spec(d).len() {
        line1_spec(d).len()
    } else if line2_spec(d).len() >= line3_spec(d).len() {
        line2_spec(d).len()
    } else {
        line3_spec(d).len()
    };
    let text_width = if CHAR_WIDTH * longest > MIN_TEXT_WIDTH {
        CHAR_WIDTH * longest
    } else {
        MIN_TEXT_WIDTH as int
    };
    text_width + 2 * WIDGET_PADDING
}

/// Ten to the power `k`.
pub open spec fn ten_pow(k: nat) -> nat
    decreases k,
{
    if k == 0 {
        1
    } else {
        10 * ten_pow((k - 1) as nat)
    }
}

proof fn lemma_decimal_digits_len(n: nat, k: nat)
    requires
        k >= 1,
        n < ten_pow(k),
    ensures
        decimal_digits(n).len() <= k,
    decreases k,
{
    if n >= 10 {
        let t = ten_pow((k - 1) as nat);
        if k == 1 {
            assert(ten_pow(1) == 10) by {
                reveal_with_fuel(ten_pow, 2);
            }
        } else {
            assert(n / 10 < t) by (nonlinear_arith)
                requires
                    n < 10 * t,
            ;
            lemma_decimal_digits_len(n / 10, (k - 1) as nat);
        }
    }
}

proof fn lemma_lines_short(d: BanglaDate)
    ensures
        line1_spec(d).len() <= 64,
        line2_spec(d).len() <= 64,
        line3_spec(d).len() <= 64,
{
    reveal_strlit(" ");
    reveal_strlit(" বঙ্গাব্দ");
    reveal_strlit(",");
    reveal_strlit(", ");
    reveal_strlit("?");
    reveal_strlit("অগ্রহায়ণ");
    reveal_strlit("আশ্বিন");
    reveal_strlit("আষাঢ়");
    reveal_strlit("কার্তিক");
    reveal_strlit("কাল");
    reveal_strlit("গ্রীষ্ম");
    reveal_strlit("চৈত্র");
    reveal_strlit("জ্যৈষ্ঠ");
    reveal_strlit("পৌষ");
    reveal_strlit("ফাল্গুন");
    reveal_strlit("বর্ষা");
    reveal_strlit("বসন্ত");
    reveal_strlit("বুধবার");
    reveal_strlit("বৃহস্পতিবার");
    reveal_strlit("বৈশাখ");
    reveal_strlit("ভাদ্র");
    reveal_strlit("মঙ্গলবার");
    reveal_strlit("মাঘ");
    reveal_strlit("রবিবার");
    reveal_strlit("শনিবার");
    reveal_strlit("শরৎ");
    reveal_strlit("শীত");
    reveal_strlit("শুক্রবার");
    reveal_strlit("শ্রাবণ");
    reveal_strlit("সোমবার");
    reveal_strlit("হেমন্ত");
    reveal_strlit("১লা");
    reveal_strlit("১০ই");
    reveal_strlit("১১ই");
    reveal_strlit("১২ই");
    reveal_strlit("১৩ই");
    reveal_strlit("১৪ই");
    reveal_strlit("১৫ই");
    reveal_strlit("১৬ই");
    reveal_strlit("১৭ই");
    reveal_strlit("১৮ই");
    reveal_strlit("১৯শে");
    reveal_strlit("২রা");
    reveal_strlit("২০শে");
    reveal_strlit("২১শে");
    reveal_strlit("২২শে");
    reveal_strlit("২৩শে");
    reveal_strlit("২৪শে");
    reveal_strlit("২৫শে");
    reveal_strlit("২৬শে");
    reveal_strlit("২৭শে");
    reveal_strlit("২৮শে");
    reveal_strlit("২৯শে");
    reveal_strlit("৩রা");
    reveal_strlit("৩০শে");
    reveal_strlit("৩১শে");
    reveal_strlit("৪ঠা");
    reveal_strlit("৫ই");
    reveal_strlit("৬ই");
    reveal_strlit("৭ই");
    reveal_strlit("৮ই");
    reveal_strlit("৯ই");
    let magnitude: nat = if d.year < 0 {
        (-d.year) as nat
    } else {
        d.year as nat
    };
    assert(ten_pow(10) == 10000000000) by {
        reveal_with_fuel(ten_pow, 11);
    }
    lemma_decimal_digits_len(magnitude, 10);
}

/// Appends to `s` the Bangla digits of `n`, most significant first.
fn push_bangla_digits(s: &mut String, n: u32)
    ensures
        final(s)@ == old(s)@ + decimal_digits(n as nat).map_values(|c: char| bangla_digit_char(c)),
    decreases n,
{
    let ghost f = |c: char| bangla_digit_char(c);
    if n >= 10 {
        push_bangla_digits(s, n / 10);
        assert(decimal_digits(n as nat) == decimal_digits((n / 10) as nat).push(
            ascii_digit((n % 10) as int),
        ));
        assert(decimal_digits(n as nat).map_values(f) =~= decimal_digits((n / 10) as nat).map_values(
            f,
        ).push(bangla_digit_char(ascii_digit((n % 10) as int))));
    } else {
        assert(decimal_digits(n as nat).map_values(f) =~= seq![
            bangla_digit_char(ascii_digit(n as int)),
        ]);
    }
    let glyph = digit_glyph(n % 10);
    s.append(glyph);
}

/// The decimal text of `num` with each digit written as a Bangla numeral;
/// a minus sign is kept as it is.
pub fn to_bangla_number(num: i32) -> (r: String)
    ensures
        r@ == bangla_numeral(num as int),
{
    let ghost f = |c: char| bangla_digit_char(c);
    let mut s = String::new();
    if num < 0 {
        s.append("-");
        proof {
            reveal_strlit("-");
        }
        let magnitude: i64 = -(num as i64);
        push_bangla_digits(&mut s, magnitude as u32);
        assert((seq!['-'] + decimal_digits(magnitude as nat)).map_values(f) =~= seq!['-']
            + decimal_digits(magnitude as nat).map_values(f));
    } else {
        push_bangla_digits(&mut s, num as u32);
    }
    s
}

impl BanglaDate {
    /// The Bangla ordinal of the day, or "?" when the day is not 1 to 31.
    pub fn get_ordinal(&self) -> (r: &'static str)
        ensures
            r@ == ordinal_spec(self.day as int),
    {
        ordinal_name(self.day)
    }

    /// The name of the month, or "?" when the month is not 0 to 11.
    pub fn get_month_name(&self) -> (r: &'static str)
        ensures
            r@ == month_name_spec(self.month as int),
    {
        month_name(self.month)
    }

    /// The season of the month, or "?" when the month is not 0 to 11.
    pub fn get_season(&self) -> (r: &'static str)
        ensures
            r@ == season_name_spec(self.month as int),
    {
        season_name(self.month)
    }

    /// The name of the weekday, or "?" when the weekday is not 0 to 6.
    pub fn get_weekday_name(&self) -> (r: &'static str)
        ensures
            r@ == weekday_name_spec(self.weekday as int),
    {
        weekday_name(self.weekday)
    }

    /// The year in Bangla numerals.
    pub fn get_year_bangla(&self) -> (r: String)
        ensures
            r@ == bangla_numeral(self.year as int),
    {
        to_bangla_number(self.year)
    }

    /// The first display line: the ordinal day and the month, as "৬ই পৌষ,".
    pub fn format_line1(&self) -> (r: String)
        ensures
            r@ == line1_spec(*self),
    {
        let mut s = String::from_str(self.get_ordinal());
        s.append(" ");
        s.append(self.get_month_name());
        s.append(",");
        s
    }

    /// The second display line: the year and the era, as "১৪৩২ বঙ্গাব্দ".
    pub fn format_line2(&self) -> (r: String)
        ensures
            r@ == line2_spec(*self),
    {
        let mut s = self.get_year_bangla();
        s.append(" বঙ্গাব্দ");
        s
    }

    /// The third display line: the weekday and the season, as
    /// "শনিবার, হেমন্তকাল".
    pub fn format_line3(&self) -> (r: String)
        ensures
            r@ == line3_spec(*self),
    {
        let mut s = String::from_str(self.get_weekday_name());
        s.append(", ");
        s.append(self.get_season());
        s.append("কাল");
        s
    }
}

/// Width of the date widget showing `date`, estimated from the number of
/// characters of its longest display line.
pub fn calculate_widget_width(date: &BanglaDate) -> (r: i32)
    ensures
        r == widget_width_spec(*date),
{
    let line1 = date.format_line1();
    let line2 = date.format_line2();
    let line3 = date.format_line3();
    proof {
        lemma_lines_short(*date);
    }
    let mut max_chars: usize = line1.as_str().unicode_len();
    let chars2 = line2.as_str().unicode_len();
    let chars3 = line3.as_str().unicode_len();
    if chars2 > max_chars {
        max_chars = chars2;
    }
    if chars3 > max_chars {
        max_chars = chars3;
    }
    let mut text_width: i32 = max_chars as i32 * CHAR_WIDTH;
    if text_width < MIN_TEXT_WIDTH {
        text_width = MIN_TEXT_WIDTH;
    }
    text_width + WIDGET_PADDING * 2
}

} // verus!
