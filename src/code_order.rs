use vstd::prelude::*;

use crate::catalog::{catalog, COLOR_TABLE};

verus! {

// Uniqueness of the catalog's codes. Each code is given an integer key that
// depends on the code alone: first its series (the letters before the
// number, "BV", "C-", "FRV", or none), ranked in catalog order, then its
// number, where a run of zeros ranks below any other number and a longer
// run below a shorter one ("0000" < "000" < "00" < "0" < "01" < ... ).
// The table lists its codes in strictly ascending key order, family by
// family, so no two entries can share a code.

spec fn is_digit(c: char) -> bool {
    '0' <= c && c <= '9'
}

spec fn digit_at(s: Seq<char>, k: int) -> int {
    s[k] as int - '0' as int
}

/// Number of leading non-digit characters of a code, at most three.
spec fn prefix_len(s: Seq<char>) -> int {
    if s.len() == 0 || is_digit(s[0]) {
        0
    } else if s.len() == 1 || is_digit(s[1]) {
        1
    } else if s.len() == 2 || is_digit(s[2]) {
        2
    } else {
        3
    }
}

/// Position of a code's series in the catalog; `0` for a series that the
/// catalog does not hold.
spec fn series_rank(s: Seq<char>) -> int {
    let p = prefix_len(s);
    if p == 0 {
        16
    } else if p == 1 {
        if s[0] == 'V' {
            2
        } else if s[0] == 'R' {
            4
        } else if s[0] == 'Y' {
            6
        } else if s[0] == 'G' {
            8
        } else if s[0] == 'B' {
            10
        } else if s[0] == 'E' {
            11
        } else {
            0
        }
    } else if p == 2 {
        if s[0] == 'B' && s[1] == 'V' {
            1
        } else if s[0] == 'R' && s[1] == 'V' {
            3
        } else if s[0] == 'Y' && s[1] == 'R' {
            5
        } else if s[0] == 'Y' && s[1] == 'G' {
            7
        } else if s[0] == 'B' && s[1] == 'G' {
            9
        } else if s[0] == 'C' && s[1] == '-' {
            12
        } else if s[0] == 'N' && s[1] == '-' {
            13
        } else if s[0] == 'T' && s[1] == '-' {
            14
        } else if s[0] == 'W' && s[1] == '-' {
            15
        } else if s[0] == 'F' && s[1] == 'V' {
            17
        } else if s[0] == 'F' && s[1] == 'Y' {
            20
        } else if s[0] == 'F' && s[1] == 'G' {
            22
        } else if s[0] == 'F' && s[1] == 'B' {
            24
        } else {
            0
        }
    } else {
        if s[0] == 'F' && s[1] == 'R' && s[2] == 'V' {
            18
        } else if s[0] == 'F' && s[1] == 'Y' && s[2] == 'R' {
            19
        } else if s[0] == 'F' && s[1] == 'Y' && s[2] == 'G' {
            21
        } else if s[0] == 'F' && s[1] == 'B' && s[2] == 'G' {
            23
        } else {
            0
        }
    }
}

/// Rank of the number that follows the series: its value, or minus the
/// number of its digits when they are all zeros.
spec fn number_key(s: Seq<char>) -> int {
    let p = prefix_len(s);
    let n = s.len() - p;
    let v = if n == 1 {
        digit_at(s, p)
    } else if n == 2 {
        10 * digit_at(s, p) + digit_at(s, p + 1)
    } else if n == 3 {
        100 * digit_at(s, p) + 10 * digit_at(s, p + 1) + digit_at(s, p + 2)
    } else if n == 4 {
        1000 * digit_at(s, p) + 100 * digit_at(s, p + 1) + 10 * digit_at(s, p + 2) + digit_at(
            s,
            p + 3,
        )
    } else {
        0
    };
    if v == 0 {
        -n
    } else {
        v
    }
}

spec fn code_key(s: Seq<char>) -> int {
    100000 * series_rank(s) + number_key(s)
}

/// The codes of table entries `lo` to `hi` are non-empty (but perhaps the
/// last) and strictly ascending by key.
spec fn codes_ascend(lo: int, hi: int) -> bool
    decreases hi - lo,
{
    if lo >= hi {
        true
    } else {
        &&& COLOR_TABLE@[lo].0@.len() > 0
        &&& code_key(COLOR_TABLE@[lo].0@) < code_key(COLOR_TABLE@[lo + 1].0@)
        &&& codes_ascend(lo + 1, hi)
    }
}

proof fn lemma_blue_violet_ascends()
    ensures
        codes_ascend(0, 16),
{
    reveal_strlit("BV0000");
    reveal_strlit("BV000");
    reveal_strlit("BV00");
    reveal_strlit("BV01");
    reveal_strlit("BV02");
    reveal_strlit("BV04");
    reveal_strlit("BV08");
    reveal_strlit("BV11");
    reveal_strlit("BV13");
    reveal_strlit("BV17");
    reveal_strlit("BV20");
    reveal_strlit("BV23");
    reveal_strlit("BV25");
    reveal_strlit("BV29");
    reveal_strlit("BV31");
    reveal_strlit("BV34");
    reveal_strlit("V0000");
    reveal_with_fuel(codes_ascend, 17);
}

proof fn lemma_violet_ascends()
    ensures
        codes_ascend(16, 34),
{
    reveal_strlit("V0000");
    reveal_strlit("V000");
    reveal_strlit("V01");
    reveal_strlit("V04");
    reveal_strlit("V05");
    reveal_strlit("V06");
    reveal_strlit("V09");
    reveal_strlit("V12");
    reveal_strlit("V15");
    reveal_strlit("V17");
    reveal_strlit("V20");
    reveal_strlit("V22");
    reveal_strlit("V25");
    reveal_strlit("V28");
    reveal_strlit("V91");
    reveal_strlit("V93");
    reveal_strlit("V95");
    reveal_strlit("V99");
    reveal_strlit("RV0000");
    reveal_with_fuel(codes_ascend, 19);
}

proof fn lemma_red_violet_ascends()
    ensures
        codes_ascend(34, 63),
{
    reveal_strlit("RV0000");
    reveal_strlit("RV000");
    reveal_strlit("RV00");
    reveal_strlit("RV02");
    reveal_strlit("RV04");
    reveal_strlit("RV06");
    reveal_strlit("RV09");
    reveal_strlit("RV10");
    reveal_strlit("RV11");
    reveal_strlit("RV13");
    reveal_strlit("RV14");
    reveal_strlit("RV17");
    reveal_strlit("RV19");
    reveal_strlit("RV21");
    reveal_strlit("RV23");
    reveal_strlit("RV25");
    reveal_strlit("RV29");
    reveal_strlit("RV32");
    reveal_strlit("RV34");
    reveal_strlit("RV42");
    reveal_strlit("RV52");
    reveal_strlit("RV55");
    reveal_strlit("RV63");
    reveal_strlit("RV66");
    reveal_strlit("RV69");
    reveal_strlit("RV91");
    reveal_strlit("RV93");
    reveal_strlit("RV95");
    reveal_strlit("RV99");
    reveal_strlit("R0000");
    reveal_with_fuel(codes_ascend, 30);
}

proof fn lemma_red_ascends()
    ensures
        codes_ascend(63, 93),
{
    reveal_strlit("R0000");
    reveal_strlit("R000");
    reveal_strlit("R00");
    reveal_strlit("R01");
    reveal_strlit("R02");
    reveal_strlit("R05");
    reveal_strlit("R08");
    reveal_strlit("R11");
    reveal_strlit("R12");
    reveal_strlit("R14");
    reveal_strlit("R17");
    reveal_strlit("R20");
    reveal_strlit("R21");
    reveal_strlit("R22");
    reveal_strlit("R24");
    reveal_strlit("R27");
    reveal_strlit("R29");
    reveal_strlit("R30");
    reveal_strlit("R32");
    reveal_strlit("R35");
    reveal_strlit("R37");
    reveal_strlit("R39");
    reveal_strlit("R43");
    reveal_strlit("R46");
    reveal_strlit("R56");
    reveal_strlit("R59");
    reveal_strlit("R81");
    reveal_strlit("R83");
    reveal_strlit("R85");
    reveal_strlit("R89");
    reveal_strlit("YR0000");
    reveal_with_fuel(codes_ascend, 31);
}

proof fn lemma_yellow_red_ascends()
    ensures
        codes_ascend(93, 117),
{
    reveal_strlit("YR0000");
    reveal_strlit("YR000");
    reveal_strlit("YR00");
    reveal_strlit("YR01");
    reveal_strlit("YR02");
    reveal_strlit("YR04");
    reveal_strlit("YR07");
    reveal_strlit("YR09");
    reveal_strlit("YR12");
    reveal_strlit("YR14");
    reveal_strlit("YR15");
    reveal_strlit("YR16");
    reveal_strlit("YR18");
    reveal_strlit("YR20");
    reveal_strlit("YR21");
    reveal_strlit("YR23");
    reveal_strlit("YR24");
    reveal_strlit("YR27");
    reveal_strlit("YR30");
    reveal_strlit("YR31");
    reveal_strlit("YR61");
    reveal_strlit("YR65");
    reveal_strlit("YR68");
    reveal_strlit("YR82");
    reveal_strlit("Y0000");
    reveal_with_fuel(codes_ascend, 25);
}

proof fn lemma_yellow_ascends()
    ensures
        codes_ascend(117, 137),
{
    reveal_strlit("Y0000");
    reveal_strlit("Y000");
    reveal_strlit("Y00");
    reveal_strlit("Y02");
    reveal_strlit("Y04");
    reveal_strlit("Y06");
    reveal_strlit("Y08");
    reveal_strlit("Y11");
    reveal_strlit("Y13");
    reveal_strlit("Y15");
    reveal_strlit("Y17");
    reveal_strlit("Y18");
    reveal_strlit("Y19");
    reveal_strlit("Y21");
    reveal_strlit("Y23");
    reveal_strlit("Y26");
    reveal_strlit("Y28");
    reveal_strlit("Y32");
    reveal_strlit("Y35");
    reveal_strlit("Y38");
    reveal_strlit("YG0000");
    reveal_with_fuel(codes_ascend, 21);
}

proof fn lemma_yellow_green_ascends()
    ensures
        codes_ascend(137, 161),
{
    reveal_strlit("YG0000");
    reveal_strlit("YG00");
    reveal_strlit("YG01");
    reveal_strlit("YG03");
    reveal_strlit("YG05");
    reveal_strlit("YG06");
    reveal_strlit("YG07");
    reveal_strlit("YG09");
    reveal_strlit("YG11");
    reveal_strlit("YG13");
    reveal_strlit("YG17");
    reveal_strlit("YG21");
    reveal_strlit("YG23");
    reveal_strlit("YG25");
    reveal_strlit("YG41");
    reveal_strlit("YG45");
    reveal_strlit("YG61");
    reveal_strlit("YG63");
    reveal_strlit("YG67");
    reveal_strlit("YG91");
    reveal_strlit("YG93");
    reveal_strlit("YG95");
    reveal_strlit("YG97");
    reveal_strlit("YG99");
    reveal_strlit("G0000");
    reveal_with_fuel(codes_ascend, 25);
}

proof fn lemma_green_ascends()
    ensures
        codes_ascend(161, 186),
{
    reveal_strlit("G0000");
    reveal_strlit("G000");
    reveal_strlit("G00");
    reveal_strlit("G02");
    reveal_strlit("G03");
    reveal_strlit("G05");
    reveal_strlit("G07");
    reveal_strlit("G09");
    reveal_strlit("G12");
    reveal_strlit("G14");
    reveal_strlit("G16");
    reveal_strlit("G17");
    reveal_strlit("G19");
    reveal_strlit("G20");
    reveal_strlit("G21");
    reveal_strlit("G24");
    reveal_strlit("G28");
    reveal_strlit("G29");
    reveal_strlit("G40");
    reveal_strlit("G43");
    reveal_strlit("G46");
    reveal_strlit("G82");
    reveal_strlit("G85");
    reveal_strlit("G94");
    reveal_strlit("G99");
    reveal_strlit("BG0000");
    reveal_with_fuel(codes_ascend, 26);
}

proof fn lemma_blue_green_ascends()
    ensures
        codes_ascend(186, 213),
{
    reveal_strlit("BG0000");
    reveal_strlit("BG000");
    reveal_strlit("BG01");
    reveal_strlit("BG02");
    reveal_strlit("BG05");
    reveal_strlit("BG07");
    reveal_strlit("BG09");
    reveal_strlit("BG10");
    reveal_strlit("BG11");
    reveal_strlit("BG13");
    reveal_strlit("BG15");
    reveal_strlit("BG18");
    reveal_strlit("BG23");
    reveal_strlit("BG32");
    reveal_strlit("BG34");
    reveal_strlit("BG45");
    reveal_strlit("BG49");
    reveal_strlit("BG53");
    reveal_strlit("BG57");
    reveal_strlit("BG70");
    reveal_strlit("BG72");
    reveal_strlit("BG75");
    reveal_strlit("BG78");
    reveal_strlit("BG90");
    reveal_strlit("BG93");
    reveal_strlit("BG96");
    reveal_strlit("BG99");
    reveal_strlit("B0000");
    reveal_with_fuel(codes_ascend, 28);
}

proof fn lemma_blue_ascends()
    ensures
        codes_ascend(213, 248),
{
    reveal_strlit("B0000");
    reveal_strlit("B000");
    reveal_strlit("B00");
    reveal_strlit("B01");
    reveal_strlit("B02");
    reveal_strlit("B04");
    reveal_strlit("B05");
    reveal_strlit("B06");
    reveal_strlit("B12");
    reveal_strlit("B14");
    reveal_strlit("B16");
    reveal_strlit("B18");
    reveal_strlit("B21");
    reveal_strlit("B23");
    reveal_strlit("B24");
    reveal_strlit("B26");
    reveal_strlit("B28");
    reveal_strlit("B29");
    reveal_strlit("B32");
    reveal_strlit("B34");
    reveal_strlit("B37");
    reveal_strlit("B39");
    reveal_strlit("B41");
    reveal_strlit("B45");
    reveal_strlit("B52");
    reveal_strlit("B60");
    reveal_strlit("B63");
    reveal_strlit("B66");
    reveal_strlit("B69");
    reveal_strlit("B79");
    reveal_strlit("B91");
    reveal_strlit("B93");
    reveal_strlit("B95");
    reveal_strlit("B97");
    reveal_strlit("B99");
    reveal_strlit("E0000");
    reveal_with_fuel(codes_ascend, 36);
}

proof fn lemma_earth_ascends()
    ensures
        codes_ascend(248, 301),
{
    reveal_strlit("E0000");
    reveal_strlit("E000");
    reveal_strlit("E00");
    reveal_strlit("E01");
    reveal_strlit("E02");
    reveal_strlit("E04");
    reveal_strlit("E07");
    reveal_strlit("E08");
    reveal_strlit("E09");
    reveal_strlit("E11");
    reveal_strlit("E13");
    reveal_strlit("E15");
    reveal_strlit("E17");
    reveal_strlit("E18");
    reveal_strlit("E19");
    reveal_strlit("E21");
    reveal_strlit("E23");
    reveal_strlit("E25");
    reveal_strlit("E27");
    reveal_strlit("E29");
    reveal_strlit("E30");
    reveal_strlit("E31");
    reveal_strlit("E33");
    reveal_strlit("E34");
    reveal_strlit("E35");
    reveal_strlit("E37");
    reveal_strlit("E39");
    reveal_strlit("E40");
    reveal_strlit("E41");
    reveal_strlit("E42");
    reveal_strlit("E43");
    reveal_strlit("E44");
    reveal_strlit("E47");
    reveal_strlit("E49");
    reveal_strlit("E50");
    reveal_strlit("E51");
    reveal_strlit("E53");
    reveal_strlit("E55");
    reveal_strlit("E57");
    reveal_strlit("E59");
    reveal_strlit("E70");
    reveal_strlit("E71");
    reveal_strlit("E74");
    reveal_strlit("E77");
    reveal_strlit("E79");
    reveal_strlit("E81");
    reveal_strlit("E84");
    reveal_strlit("E87");
    reveal_strlit("E89");
    reveal_strlit("E93");
    reveal_strlit("E95");
    reveal_strlit("E97");
    reveal_strlit("E99");
    reveal_strlit("C-00");
    reveal_with_fuel(codes_ascend, 54);
}

proof fn lemma_cool_gray_ascends()
    ensures
        codes_ascend(301, 313),
{
    reveal_strlit("C-00");
    reveal_strlit("C-0");
    reveal_strlit("C-1");
    reveal_strlit("C-2");
    reveal_strlit("C-3");
    reveal_strlit("C-4");
    reveal_strlit("C-5");
    reveal_strlit("C-6");
    reveal_strlit("C-7");
    reveal_strlit("C-8");
    reveal_strlit("C-9");
    reveal_strlit("C-10");
    reveal_strlit("N-0");
    reveal_with_fuel(codes_ascend, 13);
}

proof fn lemma_neutral_gray_ascends()
    ensures
        codes_ascend(313, 324),
{
    reveal_strlit("N-0");
    reveal_strlit("N-1");
    reveal_strlit("N-2");
    reveal_strlit("N-3");
    reveal_strlit("N-4");
    reveal_strlit("N-5");
    reveal_strlit("N-6");
    reveal_strlit("N-7");
    reveal_strlit("N-8");
    reveal_strlit("N-9");
    reveal_strlit("N-10");
    reveal_strlit("T-0");
    reveal_with_fuel(codes_ascend, 12);
}

proof fn lemma_toner_gray_ascends()
    ensures
        codes_ascend(324, 335),
{
    reveal_strlit("T-0");
    reveal_strlit("T-1");
    reveal_strlit("T-2");
    reveal_strlit("T-3");
    reveal_strlit("T-4");
    reveal_strlit("T-5");
    reveal_strlit("T-6");
    reveal_strlit("T-7");
    reveal_strlit("T-8");
    reveal_strlit("T-9");
    reveal_strlit("T-10");
    reveal_strlit("W-00");
    reveal_with_fuel(codes_ascend, 12);
}

proof fn lemma_warm_gray_ascends()
    ensures
        codes_ascend(335, 347),
{
    reveal_strlit("W-00");
    reveal_strlit("W-0");
    reveal_strlit("W-1");
    reveal_strlit("W-2");
    reveal_strlit("W-3");
    reveal_strlit("W-4");
    reveal_strlit("W-5");
    reveal_strlit("W-6");
    reveal_strlit("W-7");
    reveal_strlit("W-8");
    reveal_strlit("W-9");
    reveal_strlit("W-10");
    reveal_strlit("0");
    reveal_with_fuel(codes_ascend, 13);
}

proof fn lemma_achromatic_ascends()
    ensures
        codes_ascend(347, 350),
{
    reveal_strlit("0");
    reveal_strlit("100");
    reveal_strlit("110");
    reveal_strlit("FV");
    reveal_with_fuel(codes_ascend, 4);
}

proof fn lemma_fluorescent_ascends()
    ensures
        codes_ascend(350, 357),
        COLOR_TABLE@[357].0@.len() > 0,
{
    reveal_strlit("FV");
    reveal_strlit("FRV");
    reveal_strlit("FYR");
    reveal_strlit("FY");
    reveal_strlit("FYG");
    reveal_strlit("FG");
    reveal_strlit("FBG");
    reveal_strlit("FB");
    reveal_with_fuel(codes_ascend, 8);
}

proof fn lemma_ascend_join(a: int, b: int, c: int)
    requires
        a <= b <= c,
        codes_ascend(a, b),
        codes_ascend(b, c),
    ensures
        codes_ascend(a, c),
    decreases b - a,
{
    if a < b {
        lemma_ascend_join(a + 1, b, c);
    }
}

proof fn lemma_ascend_between(lo: int, hi: int, i: int, j: int)
    requires
        codes_ascend(lo, hi),
        lo <= i < j <= hi,
    ensures
        COLOR_TABLE@[i].0@.len() > 0,
        code_key(COLOR_TABLE@[i].0@) < code_key(COLOR_TABLE@[j].0@),
    decreases j - lo,
{
    if lo < i {
        lemma_ascend_between(lo + 1, hi, i, j);
    } else if i + 1 < j {
        lemma_ascend_between(lo + 1, hi, i + 1, j);
    }
}

proof fn lemma_table_ascends()
    ensures
        codes_ascend(0, 357),
        COLOR_TABLE@[357].0@.len() > 0,
{
    lemma_blue_violet_ascends();
    lemma_violet_ascends();
    lemma_red_violet_ascends();
    lemma_red_ascends();
    lemma_yellow_red_ascends();
    lemma_yellow_ascends();
    lemma_yellow_green_ascends();
    lemma_green_ascends();
    lemma_blue_green_ascends();
    lemma_blue_ascends();
    lemma_earth_ascends();
    lemma_cool_gray_ascends();
    lemma_neutral_gray_ascends();
    lemma_toner_gray_ascends();
    lemma_warm_gray_ascends();
    lemma_achromatic_ascends();
    lemma_fluorescent_ascends();
    lemma_ascend_join(0, 16, 34);
    lemma_ascend_join(0, 34, 63);
    lemma_ascend_join(0, 63, 93);
    lemma_ascend_join(0, 93, 117);
    lemma_ascend_join(0, 117, 137);
    lemma_ascend_join(0, 137, 161);
    lemma_ascend_join(0, 161, 186);
    lemma_ascend_join(0, 186, 213);
    lemma_ascend_join(0, 213, 248);
    lemma_ascend_join(0, 248, 301);
    lemma_ascend_join(0, 301, 313);
    lemma_ascend_join(0, 313, 324);
    lemma_ascend_join(0, 324, 335);
    lemma_ascend_join(0, 335, 347);
    lemma_ascend_join(0, 347, 350);
    lemma_ascend_join(0, 350, 357);
}

/// Every code in the catalog is non-empty, and no two entries of the
/// catalog share a code.
pub proof fn lemma_codes_unique()
    ensures
        forall|i: int| 0 <= i < catalog().len() ==> (#[trigger] catalog()[i]).code@.len() > 0,
        forall|i: int, j: int|
            0 <= i < catalog().len() && 0 <= j < catalog().len() && i != j
                ==> (#[trigger] catalog()[i]).code@ != (#[trigger] catalog()[j]).code@,
{
    lemma_table_ascends();
    assert forall|i: int| 0 <= i < catalog().len() implies (#[trigger] catalog()[i]).code@.len()
        > 0 by {
        if i < 357 {
            lemma_ascend_between(0, 357, i, 357);
        }
    }
    assert forall|i: int, j: int|
        0 <= i < catalog().len() && 0 <= j < catalog().len() && i != j implies (
        #[trigger] catalog()[i]).code@ != (#[trigger] catalog()[j]).code@ by {
        if i < j {
            lemma_ascend_between(0, 357, i, j);
        } else {
            lemma_ascend_between(0, 357, j, i);
        }
    }
}

} // verus!
