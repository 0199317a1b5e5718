//! The shape of the 66 English book names that reading a reference back
//! relies on: no digits past a leading book number, no surrounding
//! whitespace, and a letter right after "N ".

use vstd::prelude::*;
use crate::books::{spec_book, BOOK_COUNT};
use crate::text::{alphabetic, is_ascii_digit, is_white_space};

verus! {

/// A name that a reference can lead with and be read back by: at least one
/// char, no whitespace at either end, no digit past its first char, and,
/// when it starts with a digit, that digit is not '0' and is followed by
/// one space and then a letter.
pub open spec fn plain_name(n: Seq<char>) -> bool {
    &&& n.len() >= 1
    &&& !is_white_space(n[0])
    &&& !is_white_space(n.last())
    &&& forall|i: int| 1 <= i < n.len() ==> !is_ascii_digit(#[trigger] n[i])
    &&& is_ascii_digit(n[0]) ==> (n[0] != '0' && n.len() >= 3 && n[1] == ' ' && n[2] != ' '
        && alphabetic(n[2]))
}

proof fn lemma_name_0()
    ensures
        plain_name(spec_book(0).name@),
{
    reveal_strlit("Genesis");
    let s = "Genesis"@;
    assert(spec_book(0).name@ == s);
    assert(s.len() == 7);
    assert forall|k: int| 1 <= k < s.len() implies !is_ascii_digit(#[trigger] s[k]) by {
    }
}

proof fn lemma_name_1()
    ensures
        plain_name(spec_book(1).name@),
{
    reveal_strlit("Exodus");
    let s = "Exodus"@;
    assert(spec_book(1).name@ == s);
    assert(s.len() == 6);
    assert forall|k: int| 1 <= k < s.len() implies !is_ascii_digit(#[trigger] s[k]) by {
    }
}

proof fn lemma_name_2()
    ensures
        plain_name(spec_book(2).name@),
{
    reveal_strlit("Leviticus");
    let s = "Leviticus"@;
    assert(spec_book(2).name@ == s);
    assert(s.len() == 9);
    assert forall|k: int| 1 <= k < s.len() implies !is_ascii_digit(#[trigger] s[k]) by {
    }
}

proof fn lemma_name_3()
    ensures
        plain_name(spec_book(3).name@),
{
    reveal_strlit("Numbers");
    let s = "Numbers"@;
    assert(spec_book(3).name@ == s);
    assert(s.len() == 7);
    assert forall|k: int| 1 <= k < s.len() implies !is_ascii_digit(#[trigger] s[k]) by {
    }
}

proof fn lemma_name_4()
    ensures
        plain_name(spec_book(4).name@),
{
    reveal_strlit("Deuteronomy");
    let s = "Deuteronomy"@;
    assert(spec_book(4).name@ == s);
    assert(s.len() == 11);
    assert forall|k: int| 1 <= k < s.len() implies !is_ascii_digit(#[trigger] s[k]) by {
    }
}

proof fn lemma_name_5()
    ensures
        plain_name(spec_book(5).name@),
{
    reveal_strlit("Joshua");
    let s = "Joshua"@;
    assert(spec_book(5).name@ == s);
    assert(s.len() == 6);
    assert forall|k: int| 1 <= k < s.len() implies !is_ascii_digit(#[trigger] s[k]) by {
    }
}

proof fn lemma_name_6()
    ensures
        plain_name(spec_book(6).name@),
{
    reveal_strlit("Judges");
    let s = "Judges"@;
    assert(spec_book(6).name@ == s);
    assert(s.len() == 6);
    assert forall|k: int| 1 <= k < s.len() implies !is_ascii_digit(#[trigger] s[k]) by {
    }
}

proof fn lemma_name_7()
    ensures
        plain_name(spec_book(7).name@),
{
    reveal_strlit("Ruth");
    let s = "Ruth"@;
    assert(spec_book(7).name@ == s);
    assert(s.len() == 4);
    assert forall|k: int| 1 <= k < s.len() implies !is_ascii_digit(#[trigger] s[k]) by {
    }
}

proof fn lemma_name_8()
    ensures
        plain_name(spec_book(8).name@),
{
    reveal_strlit("1 Samuel");
    let s = "1 Samuel"@;
    assert(spec_book(8).name@ == s);
    assert(s.len() == 8);
    assert forall|k: int| 1 <= k < s.len() implies !is_ascii_digit(#[trigger] s[k]) by {
    }
}

proof fn lemma_name_9()
    ensures
        plain_name(spec_book(9).name@),
{
    reveal_strlit("2 Samuel");
    let s = "2 Samuel"@;
    assert(spec_book(9).name@ == s);
    assert(s.len() == 8);
    assert forall|k: int| 1 <= k < s.len() implies !is_ascii_digit(#[trigger] s[k]) by {
    }
}

proof fn lemma_name_10()
    ensures
        plain_name(spec_book(10).name@),
{
    reveal_strlit("1 Kings");
    let s = "1 Kings"@;
    assert(spec_book(10).name@ == s);
    assert(s.len() == 7);
    assert forall|k: int| 1 <= k < s.len() implies !is_ascii_digit(#[trigger] s[k]) by {
    }
}

proof fn lemma_name_11()
    ensures
        plain_name(spec_book(11).name@),
{
    reveal_strlit("2 Kings");
    let s = "2 Kings"@;
    assert(spec_book(11).name@ == s);
    assert(s.len() == 7);
    assert forall|k: int| 1 <= k < s.len() implies !is_ascii_digit(#[trigger] s[k]) by {
    }
}

proof fn lemma_name_12()
    ensures
        plain_name(spec_book(12).name@),
{
    reveal_strlit("1 Chronicles");
    let s = "1 Chronicles"@;
    assert(spec_book(12).name@ == s);
    assert(s.len() == 12);
    assert forall|k: int| 1 <= k < s.len() implies !is_ascii_digit(#[trigger] s[k]) by {
    }
}

proof fn lemma_name_13()
    ensures
        plain_name(spec_book(13).name@),
{
    reveal_strlit("2 Chronicles");
    let s = "2 Chronicles"@;
    assert(spec_book(13).name@ == s);
    assert(s.len() == 12);
    assert forall|k: int| 1 <= k < s.len() implies !is_ascii_digit(#[trigger] s[k]) by {
    }
}

proof fn lemma_name_14()
    ensures
        plain_name(spec_book(14).name@),
{
    reveal_strlit("Ezra");
    let s = "Ezra"@;
    assert(spec_book(14).name@ == s);
    assert(s.len() == 4);
    assert forall|k: int| 1 <= k < s.len() implies !is_ascii_digit(#[trigger] s[k]) by {
    }
}

proof fn lemma_name_15()
    ensures
        plain_name(spec_book(15).name@),
{
    reveal_strlit("Nehemiah");
    let s = "Nehemiah"@;
    assert(spec_book(15).name@ == s);
    assert(s.len() == 8);
    assert forall|k: int| 1 <= k < s.len() implies !is_ascii_digit(#[trigger] s[k]) by {
    }
}

proof fn lemma_name_16()
    ensures
        plain_name(spec_book(16).name@),
{
    reveal_strlit("Esther");
    let s = "Esther"@;
    assert(spec_book(16).name@ == s);
    assert(s.len() == 6);
    assert forall|k: int| 1 <= k < s.len() implies !is_ascii_digit(#[trigger] s[k]) by {
    }
}

proof fn lemma_name_17()
    ensures
        plain_name(spec_book(17).name@),
{
    reveal_strlit("Job");
    let s = "Job"@;
    assert(spec_book(17).name@ == s);
    assert(s.len() == 3);
    assert forall|k: int| 1 <= k < s.len() implies !is_ascii_digit(#[trigger] s[k]) by {
    }
}

proof fn lemma_name_18()
    ensures
        plain_name(spec_book(18).name@),
{
    reveal_strlit("Psalms");
    let s = "Psalms"@;
    assert(spec_book(18).name@ == s);
    assert(s.len() == 6);
    assert forall|k: int| 1 <= k < s.len() implies !is_ascii_digit(#[trigger] s[k]) by {
    }
}

proof fn lemma_name_19()
    ensures
        plain_name(spec_book(19).name@),
{
    reveal_strlit("Proverbs");
    let s = "Proverbs"@;
    assert(spec_book(19).name@ == s);
    assert(s.len() == 8);
    assert forall|k: int| 1 <= k < s.len() implies !is_ascii_digit(#[trigger] s[k]) by {
    }
}

proof fn lemma_name_20()
    ensures
        plain_name(spec_book(20).name@),
{
    reveal_strlit("Ecclesiastes");
    let s = "Ecclesiastes"@;
    assert(spec_book(20).name@ == s);
    assert(s.len() == 12);
    assert forall|k: int| 1 <= k < s.len() implies !is_ascii_digit(#[trigger] s[k]) by {
    }
}

proof fn lemma_name_21()
    ensures
        plain_name(spec_book(21).name@),
{
    reveal_strlit("Song of Solomon");
    let s = "Song of Solomon"@;
    assert(spec_book(21).name@ == s);
    assert(s.len() == 15);
    assert forall|k: int| 1 <= k < s.len() implies !is_ascii_digit(#[trigger] s[k]) by {
    }
}

proof fn lemma_name_22()
    ensures
        plain_name(spec_book(22).name@),
{
    reveal_strlit("Isaiah");
    let s = "Isaiah"@;
    assert(spec_book(22).name@ == s);
    assert(s.len() == 6);
    assert forall|k: int| 1 <= k < s.len() implies !is_ascii_digit(#[trigger] s[k]) by {
    }
}

proof fn lemma_name_23()
    ensures
        plain_name(spec_book(23).name@),
{
    reveal_strlit("Jeremiah");
    let s = "Jeremiah"@;
    assert(spec_book(23).name@ == s);
    assert(s.len() == 8);
    assert forall|k: int| 1 <= k < s.len() implies !is_ascii_digit(#[trigger] s[k]) by {
    }
}

proof fn lemma_name_24()
    ensures
        plain_name(spec_book(24).name@),
{
    reveal_strlit("Lamentations");
    let s = "Lamentations"@;
    assert(spec_book(24).name@ == s);
    assert(s.len() == 12);
    assert forall|k: int| 1 <= k < s.len() implies !is_ascii_digit(#[trigger] s[k]) by {
    }
}

proof fn lemma_name_25()
    ensures
        plain_name(spec_book(25).name@),
{
    reveal_strlit("Ezekiel");
    let s = "Ezekiel"@;
    assert(spec_book(25).name@ == s);
    assert(s.len() == 7);
    assert forall|k: int| 1 <= k < s.len() implies !is_ascii_digit(#[trigger] s[k]) by {
    }
}

proof fn lemma_name_26()
    ensures
        plain_name(spec_book(26).name@),
{
    reveal_strlit("Daniel");
    let s = "Daniel"@;
    assert(spec_book(26).name@ == s);
    assert(s.len() == 6);
    assert forall|k: int| 1 <= k < s.len() implies !is_ascii_digit(#[trigger] s[k]) by {
    }
}

proof fn lemma_name_27()
    ensures
        plain_name(spec_book(27).name@),
{
    reveal_strlit("Hosea");
    let s = "Hosea"@;
    assert(spec_book(27).name@ == s);
    assert(s.len() == 5);
    assert forall|k: int| 1 <= k < s.len() implies !is_ascii_digit(#[trigger] s[k]) by {
    }
}

proof fn lemma_name_28()
    ensures
        plain_name(spec_book(28).name@),
{
    reveal_strlit("Joel");
    let s = "Joel"@;
    assert(spec_book(28).name@ == s);
    assert(s.len() == 4);
    assert forall|k: int| 1 <= k < s.len() implies !is_ascii_digit(#[trigger] s[k]) by {
    }
}

proof fn lemma_name_29()
    ensures
        plain_name(spec_book(29).name@),
{
    reveal_strlit("Amos");
    let s = "Amos"@;
    assert(spec_book(29).name@ == s);
    assert(s.len() == 4);
    assert forall|k: int| 1 <= k < s.len() implies !is_ascii_digit(#[trigger] s[k]) by {
    }
}

proof fn lemma_name_30()
    ensures
        plain_name(spec_book(30).name@),
{
    reveal_strlit("Obadiah");
    let s = "Obadiah"@;
    assert(spec_book(30).name@ == s);
    assert(s.len() == 7);
    assert forall|k: int| 1 <= k < s.len() implies !is_ascii_digit(#[trigger] s[k]) by {
    }
}

proof fn lemma_name_31()
    ensures
        plain_name(spec_book(31).name@),
{
    reveal_strlit("Jonah");
    let s = "Jonah"@;
    assert(spec_book(31).name@ == s);
    assert(s.len() == 5);
    assert forall|k: int| 1 <= k < s.len() implies !is_ascii_digit(#[trigger] s[k]) by {
    }
}

proof fn lemma_name_32()
    ensures
        plain_name(spec_book(32).name@),
{
    reveal_strlit("Micah");
    let s = "Micah"@;
    assert(spec_book(32).name@ == s);
    assert(s.len() == 5);
    assert forall|k: int| 1 <= k < s.len() implies !is_ascii_digit(#[trigger] s[k]) by {
    }
}

proof fn lemma_name_33()
    ensures
        plain_name(spec_book(33).name@),
{
    reveal_strlit("Nahum");
    let s = "Nahum"@;
    assert(spec_book(33).name@ == s);
    assert(s.len() == 5);
    assert forall|k: int| 1 <= k < s.len() implies !is_ascii_digit(#[trigger] s[k]) by {
    }
}

proof fn lemma_name_34()
    ensures
        plain_name(spec_book(34).name@),
{
    reveal_strlit("Habakkuk");
    let s = "Habakkuk"@;
    assert(spec_book(34).name@ == s);
    assert(s.len() == 8);
    assert forall|k: int| 1 <= k < s.len() implies !is_ascii_digit(#[trigger] s[k]) by {
    }
}

proof fn lemma_name_35()
    ensures
        plain_name(spec_book(35).name@),
{
    reveal_strlit("Zephaniah");
    let s = "Zephaniah"@;
    assert(spec_book(35).name@ == s);
    assert(s.len() == 9);
    assert forall|k: int| 1 <= k < s.len() implies !is_ascii_digit(#[trigger] s[k]) by {
    }
}

proof fn lemma_name_36()
    ensures
        plain_name(spec_book(36).name@),
{
    reveal_strlit("Haggai");
    let s = "Haggai"@;
    assert(spec_book(36).name@ == s);
    assert(s.len() == 6);
    assert forall|k: int| 1 <= k < s.len() implies !is_ascii_digit(#[trigger] s[k]) by {
    }
}

proof fn lemma_name_37()
    ensures
        plain_name(spec_book(37).name@),
{
    reveal_strlit("Zechariah");
    let s = "Zechariah"@;
    assert(spec_book(37).name@ == s);
    assert(s.len() == 9);
    assert forall|k: int| 1 <= k < s.len() implies !is_ascii_digit(#[trigger] s[k]) by {
    }
}

proof fn lemma_name_38()
    ensures
        plain_name(spec_book(38).name@),
{
    reveal_strlit("Malachi");
    let s = "Malachi"@;
    assert(spec_book(38).name@ == s);
    assert(s.len() == 7);
    assert forall|k: int| 1 <= k < s.len() implies !is_ascii_digit(#[trigger] s[k]) by {
    }
}

proof fn lemma_name_39()
    ensures
        plain_name(spec_book(39).name@),
{
    reveal_strlit("Matthew");
    let s = "Matthew"@;
    assert(spec_book(39).name@ == s);
    assert(s.len() == 7);
    assert forall|k: int| 1 <= k < s.len() implies !is_ascii_digit(#[trigger] s[k]) by {
    }
}

proof fn lemma_name_40()
    ensures
        plain_name(spec_book(40).name@),
{
    reveal_strlit("Mark");
    let s = "Mark"@;
    assert(spec_book(40).name@ == s);
    assert(s.len() == 4);
    assert forall|k: int| 1 <= k < s.len() implies !is_ascii_digit(#[trigger] s[k]) by {
    }
}

proof fn lemma_name_41()
    ensures
        plain_name(spec_book(41).name@),
{
    reveal_strlit("Luke");
    let s = "Luke"@;
    assert(spec_book(41).name@ == s);
    assert(s.len() == 4);
    assert forall|k: int| 1 <= k < s.len() implies !is_ascii_digit(#[trigger] s[k]) by {
    }
}

proof fn lemma_name_42()
    ensures
        plain_name(spec_book(42).name@),
{
    reveal_strlit("John");
    let s = "John"@;
    assert(spec_book(42).name@ == s);
    assert(s.len() == 4);
    assert forall|k: int| 1 <= k < s.len() implies !is_ascii_digit(#[trigger] s[k]) by {
    }
}

proof fn lemma_name_43()
    ensures
        plain_name(spec_book(43).name@),
{
    reveal_strlit("Acts");
    let s = "Acts"@;
    assert(spec_book(43).name@ == s);
    assert(s.len() == 4);
    assert forall|k: int| 1 <= k < s.len() implies !is_ascii_digit(#[trigger] s[k]) by {
    }
}

proof fn lemma_name_44()
    ensures
        plain_name(spec_book(44).name@),
{
    reveal_strlit("Romans");
    let s = "Romans"@;
    assert(spec_book(44).name@ == s);
    assert(s.len() == 6);
    assert forall|k: int| 1 <= k < s.len() implies !is_ascii_digit(#[trigger] s[k]) by {
    }
}

proof fn lemma_name_45()
    ensures
        plain_name(spec_book(45).name@),
{
    reveal_strlit("1 Corinthians");
    let s = "1 Corinthians"@;
    assert(spec_book(45).name@ == s);
    assert(s.len() == 13);
    assert forall|k: int| 1 <= k < s.len() implies !is_ascii_digit(#[trigger] s[k]) by {
    }
}

proof fn lemma_name_46()
    ensures
        plain_name(spec_book(46).name@),
{
    reveal_strlit("2 Corinthians");
    let s = "2 Corinthians"@;
    assert(spec_book(46).name@ == s);
    assert(s.len() == 13);
    assert forall|k: int| 1 <= k < s.len() implies !is_ascii_digit(#[trigger] s[k]) by {
    }
}

proof fn lemma_name_47()
    ensures
        plain_name(spec_book(47).name@),
{
    reveal_strlit("Galatians");
    let s = "Galatians"@;
    assert(spec_book(47).name@ == s);
    assert(s.len() == 9);
    assert forall|k: int| 1 <= k < s.len() implies !is_ascii_digit(#[trigger] s[k]) by {
    }
}

proof fn lemma_name_48()
    ensures
        plain_name(spec_book(48).name@),
{
    reveal_strlit("Ephesians");
    let s = "Ephesians"@;
    assert(spec_book(48).name@ == s);
    assert(s.len() == 9);
    assert forall|k: int| 1 <= k < s.len() implies !is_ascii_digit(#[trigger] s[k]) by {
    }
}

proof fn lemma_name_49()
    ensures
        plain_name(spec_book(49).name@),
{
    reveal_strlit("Philippians");
    let s = "Philippians"@;
    assert(spec_book(49).name@ == s);
    assert(s.len() == 11);
    assert forall|k: int| 1 <= k < s.len() implies !is_ascii_digit(#[trigger] s[k]) by {
    }
}

proof fn lemma_name_50()
    ensures
        plain_name(spec_book(50).name@),
{
    reveal_strlit("Colossians");
    let s = "Colossians"@;
    assert(spec_book(50).name@ == s);
    assert(s.len() == 10);
    assert forall|k: int| 1 <= k < s.len() implies !is_ascii_digit(#[trigger] s[k]) by {
    }
}

proof fn lemma_name_51()
    ensures
        plain_name(spec_book(51).name@),
{
    reveal_strlit("1 Thessalonians");
    let s = "1 Thessalonians"@;
    assert(spec_book(51).name@ == s);
    assert(s.len() == 15);
    assert forall|k: int| 1 <= k < s.len() implies !is_ascii_digit(#[trigger] s[k]) by {
    }
}

proof fn lemma_name_52()
    ensures
        plain_name(spec_book(52).name@),
{
    reveal_strlit("2 Thessalonians");
    let s = "2 Thessalonians"@;
    assert(spec_book(52).name@ == s);
    assert(s.len() == 15);
    assert forall|k: int| 1 <= k < s.len() implies !is_ascii_digit(#[trigger] s[k]) by {
    }
}

proof fn lemma_name_53()
    ensures
        plain_name(spec_book(53).name@),
{
    reveal_strlit("1 Timothy");
    let s = "1 Timothy"@;
    assert(spec_book(53).name@ == s);
    assert(s.len() == 9);
    assert forall|k: int| 1 <= k < s.len() implies !is_ascii_digit(#[trigger] s[k]) by {
    }
}

proof fn lemma_name_54()
    ensures
        plain_name(spec_book(54).name@),
{
    reveal_strlit("2 Timothy");
    let s = "2 Timothy"@;
    assert(spec_book(54).name@ == s);
    assert(s.len() == 9);
    assert forall|k: int| 1 <= k < s.len() implies !is_ascii_digit(#[trigger] s[k]) by {
    }
}

proof fn lemma_name_55()
    ensures
        plain_name(spec_book(55).name@),
{
    reveal_strlit("Titus");
    let s = "Titus"@;
    assert(spec_book(55).name@ == s);
    assert(s.len() == 5);
    assert forall|k: int| 1 <= k < s.len() implies !is_ascii_digit(#[trigger] s[k]) by {
    }
}

proof fn lemma_name_56()
    ensures
        plain_name(spec_book(56).name@),
{
    reveal_strlit("Philemon");
    let s = "Philemon"@;
    assert(spec_book(56).name@ == s);
    assert(s.len() == 8);
    assert forall|k: int| 1 <= k < s.len() implies !is_ascii_digit(#[trigger] s[k]) by {
    }
}

proof fn lemma_name_57()
    ensures
        plain_name(spec_book(57).name@),
{
    reveal_strlit("Hebrews");
    let s = "Hebrews"@;
    assert(spec_book(57).name@ == s);
    assert(s.len() == 7);
    assert forall|k: int| 1 <= k < s.len() implies !is_ascii_digit(#[trigger] s[k]) by {
    }
}

proof fn lemma_name_58()
    ensures
        plain_name(spec_book(58).name@),
{
    reveal_strlit("James");
    let s = "James"@;
    assert(spec_book(58).name@ == s);
    assert(s.len() == 5);
    assert forall|k: int| 1 <= k < s.len() implies !is_ascii_digit(#[trigger] s[k]) by {
    }
}

proof fn lemma_name_59()
    ensures
        plain_name(spec_book(59).name@),
{
    reveal_strlit("1 Peter");
    let s = "1 Peter"@;
    assert(spec_book(59).name@ == s);
    assert(s.len() == 7);
    assert forall|k: int| 1 <= k < s.len() implies !is_ascii_digit(#[trigger] s[k]) by {
    }
}

proof fn lemma_name_60()
    ensures
        plain_name(spec_book(60).name@),
{
    reveal_strlit("2 Peter");
    let s = "2 Peter"@;
    assert(spec_book(60).name@ == s);
    assert(s.len() == 7);
    assert forall|k: int| 1 <= k < s.len() implies !is_ascii_digit(#[trigger] s[k]) by {
    }
}

proof fn lemma_name_61()
    ensures
        plain_name(spec_book(61).name@),
{
    reveal_strlit("1 John");
    let s = "1 John"@;
    assert(spec_book(61).name@ == s);
    assert(s.len() == 6);
    assert forall|k: int| 1 <= k < s.len() implies !is_ascii_digit(#[trigger] s[k]) by {
    }
}

proof fn lemma_name_62()
    ensures
        plain_name(spec_book(62).name@),
{
    reveal_strlit("2 John");
    let s = "2 John"@;
    assert(spec_book(62).name@ == s);
    assert(s.len() == 6);
    assert forall|k: int| 1 <= k < s.len() implies !is_ascii_digit(#[trigger] s[k]) by {
    }
}

proof fn lemma_name_63()
    ensures
        plain_name(spec_book(63).name@),
{
    reveal_strlit("3 John");
    let s = "3 John"@;
    assert(spec_book(63).name@ == s);
    assert(s.len() == 6);
    assert forall|k: int| 1 <= k < s.len() implies !is_ascii_digit(#[trigger] s[k]) by {
    }
}

proof fn lemma_name_64()
    ensures
        plain_name(spec_book(64).name@),
{
    reveal_strlit("Jude");
    let s = "Jude"@;
    assert(spec_book(64).name@ == s);
    assert(s.len() == 4);
    assert forall|k: int| 1 <= k < s.len() implies !is_ascii_digit(#[trigger] s[k]) by {
    }
}

proof fn lemma_name_65()
    ensures
        plain_name(spec_book(65).name@),
{
    reveal_strlit("Revelation");
    let s = "Revelation"@;
    assert(spec_book(65).name@ == s);
    assert(s.len() == 10);
    assert forall|k: int| 1 <= k < s.len() implies !is_ascii_digit(#[trigger] s[k]) by {
    }
}

/// Every book's English name has the shape `plain_name` describes.
pub proof fn lemma_book_names_plain()
    ensures
        forall|b: int| 0 <= b < BOOK_COUNT ==> plain_name(#[trigger] spec_book(b).name@),
{
    assert forall|b: int| 0 <= b < BOOK_COUNT implies plain_name(#[trigger] spec_book(b).name@) by {
        if b == 0 {
            lemma_name_0();
        } else if b == 1 {
            lemma_name_1();
        } else if b == 2 {
            lemma_name_2();
        } else if b == 3 {
            lemma_name_3();
        } else if b == 4 {
            lemma_name_4();
        } else if b == 5 {
            lemma_name_5();
        } else if b == 6 {
            lemma_name_6();
        } else if b == 7 {
            lemma_name_7();
        } else if b == 8 {
            lemma_name_8();
        } else if b == 9 {
            lemma_name_9();
        } else if b == 10 {
            lemma_name_10();
        } else if b == 11 {
            lemma_name_11();
        } else if b == 12 {
            lemma_name_12();
        } else if b == 13 {
            lemma_name_13();
        } else if b == 14 {
            lemma_name_14();
        } else if b == 15 {
            lemma_name_15();
        } else if b == 16 {
            lemma_name_16();
        } else if b == 17 {
            lemma_name_17();
        } else if b == 18 {
            lemma_name_18();
        } else if b == 19 {
            lemma_name_19();
        } else if b == 20 {
            lemma_name_20();
        } else if b == 21 {
            lemma_name_21();
        } else if b == 22 {
            lemma_name_22();
        } else if b == 23 {
            lemma_name_23();
        } else if b == 24 {
            lemma_name_24();
        } else if b == 25 {
            lemma_name_25();
        } else if b == 26 {
            lemma_name_26();
        } else if b == 27 {
            lemma_name_27();
        } else if b == 28 {
            lemma_name_28();
        } else if b == 29 {
            lemma_name_29();
        } else if b == 30 {
            lemma_name_30();
        } else if b == 31 {
            lemma_name_31();
        } else if b == 32 {
            lemma_name_32();
        } else if b == 33 {
            lemma_name_33();
        } else if b == 34 {
            lemma_name_34();
        } else if b == 35 {
            lemma_name_35();
        } else if b == 36 {
            lemma_name_36();
        } else if b == 37 {
            lemma_name_37();
        } else if b == 38 {
            lemma_name_38();
        } else if b == 39 {
            lemma_name_39();
        } else if b == 40 {
            lemma_name_40();
        } else if b == 41 {
            lemma_name_41();
        } else if b == 42 {
            lemma_name_42();
        } else if b == 43 {
            lemma_name_43();
        } else if b == 44 {
            lemma_name_44();
        } else if b == 45 {
            lemma_name_45();
        } else if b == 46 {
            lemma_name_46();
        } else if b == 47 {
            lemma_name_47();
        } else if b == 48 {
            lemma_name_48();
        } else if b == 49 {
            lemma_name_49();
        } else if b == 50 {
            lemma_name_50();
        } else if b == 51 {
            lemma_name_51();
        } else if b == 52 {
            lemma_name_52();
        } else if b == 53 {
            lemma_name_53();
        } else if b == 54 {
            lemma_name_54();
        } else if b == 55 {
            lemma_name_55();
        } else if b == 56 {
            lemma_name_56();
        } else if b == 57 {
            lemma_name_57();
        } else if b == 58 {
            lemma_name_58();
        } else if b == 59 {
            lemma_name_59();
        } else if b == 60 {
            lemma_name_60();
        } else if b == 61 {
            lemma_name_61();
        } else if b == 62 {
            lemma_name_62();
        } else if b == 63 {
            lemma_name_63();
        } else if b == 64 {
            lemma_name_64();
        } else if b == 65 {
            lemma_name_65();
        }
    }
}

} // verus!
