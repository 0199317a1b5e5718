//! Each book's English name finds that book: the canonical forms of the
//! 66 names, and the proof that none of them is shadowed by an earlier one.

use vstd::prelude::*;
use crate::books::{
    canon_of, canon_spec, first_hit, hit, lemma_canon_step, lemma_first_hit, normalize_spec,
    spec_book, BOOK_COUNT,
};
use crate::text::{trim_end, trim_start};

verus! {

/// The canonical form of the English name of book `i`.
pub open spec fn canon_name(i: int) -> Seq<char> {
    if i == 0 {
        seq!['g', 'e', 'n', 'e', 's', 'i', 's']
    } else if i == 1 {
        seq!['e', 'x', 'o', 'd', 'u', 's']
    } else if i == 2 {
        seq!['l', 'e', 'v', 'i', 't', 'i', 'c', 'u', 's']
    } else if i == 3 {
        seq!['n', 'u', 'm', 'b', 'e', 'r', 's']
    } else if i == 4 {
        seq!['d', 'e', 'u', 't', 'e', 'r', 'o', 'n', 'o', 'm', 'y']
    } else if i == 5 {
        seq!['j', 'o', 's', 'h', 'u', 'a']
    } else if i == 6 {
        seq!['j', 'u', 'd', 'g', 'e', 's']
    } else if i == 7 {
        seq!['r', 'u', 't', 'h']
    } else if i == 8 {
        seq!['1', 's', 'a', 'm', 'u', 'e', 'l']
    } else if i == 9 {
        seq!['2', 's', 'a', 'm', 'u', 'e', 'l']
    } else if i == 10 {
        seq!['1', 'k', 'i', 'n', 'g', 's']
    } else if i == 11 {
        seq!['2', 'k', 'i', 'n', 'g', 's']
    } else if i == 12 {
        seq!['1', 'c', 'h', 'r', 'o', 'n', 'i', 'c', 'l', 'e', 's']
    } else if i == 13 {
        seq!['2', 'c', 'h', 'r', 'o', 'n', 'i', 'c', 'l', 'e', 's']
    } else if i == 14 {
        seq!['e', 'z', 'r', 'a']
    } else if i == 15 {
        seq!['n', 'e', 'h', 'e', 'm', 'i', 'a', 'h']
    } else if i == 16 {
        seq!['e', 's', 't', 'h', 'e', 'r']
    } else if i == 17 {
        seq!['j', 'o', 'b']
    } else if i == 18 {
        seq!['p', 's', 'a', 'l', 'm', 's']
    } else if i == 19 {
        seq!['p', 'r', 'o', 'v', 'e', 'r', 'b', 's']
    } else if i == 20 {
        seq!['e', 'c', 'c', 'l', 'e', 's', 'i', 'a', 's', 't', 'e', 's']
    } else if i == 21 {
        seq!['s', 'o', 'n', 'g', 'o', 'f', 's', 'o', 'l', 'o', 'm', 'o', 'n']
    } else if i == 22 {
        seq!['i', 's', 'a', 'i', 'a', 'h']
    } else if i == 23 {
        seq!['j', 'e', 'r', 'e', 'm', 'i', 'a', 'h']
    } else if i == 24 {
        seq!['l', 'a', 'm', 'e', 'n', 't', 'a', 't', 'i', 'o', 'n', 's']
    } else if i == 25 {
        seq!['e', 'z', 'e', 'k', 'i', 'e', 'l']
    } else if i == 26 {
        seq!['d', 'a', 'n', 'i', 'e', 'l']
    } else if i == 27 {
        seq!['h', 'o', 's', 'e', 'a']
    } else if i == 28 {
        seq!['j', 'o', 'e', 'l']
    } else if i == 29 {
        seq!['a', 'm', 'o', 's']
    } else if i == 30 {
        seq!['o', 'b', 'a', 'd', 'i', 'a', 'h']
    } else if i == 31 {
        seq!['j', 'o', 'n', 'a', 'h']
    } else if i == 32 {
        seq!['m', 'i', 'c', 'a', 'h']
    } else if i == 33 {
        seq!['n', 'a', 'h', 'u', 'm']
    } else if i == 34 {
        seq!['h', 'a', 'b', 'a', 'k', 'k', 'u', 'k']
    } else if i == 35 {
        seq!['z', 'e', 'p', 'h', 'a', 'n', 'i', 'a', 'h']
    } else if i == 36 {
        seq!['h', 'a', 'g', 'g', 'a', 'i']
    } else if i == 37 {
        seq!['z', 'e', 'c', 'h', 'a', 'r', 'i', 'a', 'h']
    } else if i == 38 {
        seq!['m', 'a', 'l', 'a', 'c', 'h', 'i']
    } else if i == 39 {
        seq!['m', 'a', 't', 't', 'h', 'e', 'w']
    } else if i == 40 {
        seq!['m', 'a', 'r', 'k']
    } else if i == 41 {
        seq!['l', 'u', 'k', 'e']
    } else if i == 42 {
        seq!['j', 'o', 'h', 'n']
    } else if i == 43 {
        seq!['a', 'c', 't', 's']
    } else if i == 44 {
        seq!['r', 'o', 'm', 'a', 'n', 's']
    } else if i == 45 {
        seq!['1', 'c', 'o', 'r', 'i', 'n', 't', 'h', 'i', 'a', 'n', 's']
    } else if i == 46 {
        seq!['2', 'c', 'o', 'r', 'i', 'n', 't', 'h', 'i', 'a', 'n', 's']
    } else if i == 47 {
        seq!['g', 'a', 'l', 'a', 't', 'i', 'a', 'n', 's']
    } else if i == 48 {
        seq!['e', 'p', 'h', 'e', 's', 'i', 'a', 'n', 's']
    } else if i == 49 {
        seq!['p', 'h', 'i', 'l', 'i', 'p', 'p', 'i', 'a', 'n', 's']
    } else if i == 50 {
        seq!['c', 'o', 'l', 'o', 's', 's', 'i', 'a', 'n', 's']
    } else if i == 51 {
        seq!['1', 't', 'h', 'e', 's', 's', 'a', 'l', 'o', 'n', 'i', 'a', 'n', 's']
    } else if i == 52 {
        seq!['2', 't', 'h', 'e', 's', 's', 'a', 'l', 'o', 'n', 'i', 'a', 'n', 's']
    } else if i == 53 {
        seq!['1', 't', 'i', 'm', 'o', 't', 'h', 'y']
    } else if i == 54 {
        seq!['2', 't', 'i', 'm', 'o', 't', 'h', 'y']
    } else if i == 55 {
        seq!['t', 'i', 't', 'u', 's']
    } else if i == 56 {
        seq!['p', 'h', 'i', 'l', 'e', 'm', 'o', 'n']
    } else if i == 57 {
        seq!['h', 'e', 'b', 'r', 'e', 'w', 's']
    } else if i == 58 {
        seq!['j', 'a', 'm', 'e', 's']
    } else if i == 59 {
        seq!['1', 'p', 'e', 't', 'e', 'r']
    } else if i == 60 {
        seq!['2', 'p', 'e', 't', 'e', 'r']
    } else if i == 61 {
        seq!['1', 'j', 'o', 'h', 'n']
    } else if i == 62 {
        seq!['2', 'j', 'o', 'h', 'n']
    } else if i == 63 {
        seq!['3', 'j', 'o', 'h', 'n']
    } else if i == 64 {
        seq!['j', 'u', 'd', 'e']
    } else {
        seq!['r', 'e', 'v', 'e', 'l', 'a', 't', 'i', 'o', 'n']
    }
}

proof fn lemma_canon_name_0()
    ensures
        canon_spec(spec_book(0).name@) == canon_name(0),
{
    reveal_strlit("Genesis");
    let s = "Genesis"@;
    assert(spec_book(0).name@ == s);
    assert(s.take(0) =~= Seq::<char>::empty());
    lemma_canon_step(s, 0);
    lemma_canon_step(s, 1);
    lemma_canon_step(s, 2);
    lemma_canon_step(s, 3);
    lemma_canon_step(s, 4);
    lemma_canon_step(s, 5);
    lemma_canon_step(s, 6);
    assert(s.take(7) =~= s);
    assert(trim_start(s) == s);
    assert(trim_end(s) == s);
    assert(canon_of(s) =~= canon_name(0));
}

proof fn lemma_canon_name_1()
    ensures
        canon_spec(spec_book(1).name@) == canon_name(1),
{
    reveal_strlit("Exodus");
    let s = "Exodus"@;
    assert(spec_book(1).name@ == s);
    assert(s.take(0) =~= Seq::<char>::empty());
    lemma_canon_step(s, 0);
    lemma_canon_step(s, 1);
    lemma_canon_step(s, 2);
    lemma_canon_step(s, 3);
    lemma_canon_step(s, 4);
    lemma_canon_step(s, 5);
    assert(s.take(6) =~= s);
    assert(trim_start(s) == s);
    assert(trim_end(s) == s);
    assert(canon_of(s) =~= canon_name(1));
}

proof fn lemma_canon_name_2()
    ensures
        canon_spec(spec_book(2).name@) == canon_name(2),
{
    reveal_strlit("Leviticus");
    let s = "Leviticus"@;
    assert(spec_book(2).name@ == s);
    assert(s.take(0) =~= Seq::<char>::empty());
    lemma_canon_step(s, 0);
    lemma_canon_step(s, 1);
    lemma_canon_step(s, 2);
    lemma_canon_step(s, 3);
    lemma_canon_step(s, 4);
    lemma_canon_step(s, 5);
    lemma_canon_step(s, 6);
    lemma_canon_step(s, 7);
    lemma_canon_step(s, 8);
    assert(s.take(9) =~= s);
    assert(trim_start(s) == s);
    assert(trim_end(s) == s);
    assert(canon_of(s) =~= canon_name(2));
}

proof fn lemma_canon_name_3()
    ensures
        canon_spec(spec_book(3).name@) == canon_name(3),
{
    reveal_strlit("Numbers");
    let s = "Numbers"@;
    assert(spec_book(3).name@ == s);
    assert(s.take(0) =~= Seq::<char>::empty());
    lemma_canon_step(s, 0);
    lemma_canon_step(s, 1);
    lemma_canon_step(s, 2);
    lemma_canon_step(s, 3);
    lemma_canon_step(s, 4);
    lemma_canon_step(s, 5);
    lemma_canon_step(s, 6);
    assert(s.take(7) =~= s);
    assert(trim_start(s) == s);
    assert(trim_end(s) == s);
    assert(canon_of(s) =~= canon_name(3));
}

proof fn lemma_canon_name_4()
    ensures
        canon_spec(spec_book(4).name@) == canon_name(4),
{
    reveal_strlit("Deuteronomy");
    let s = "Deuteronomy"@;
    assert(spec_book(4).name@ == s);
    assert(s.take(0) =~= Seq::<char>::empty());
    lemma_canon_step(s, 0);
    lemma_canon_step(s, 1);
    lemma_canon_step(s, 2);
    lemma_canon_step(s, 3);
    lemma_canon_step(s, 4);
    lemma_canon_step(s, 5);
    lemma_canon_step(s, 6);
    lemma_canon_step(s, 7);
    lemma_canon_step(s, 8);
    lemma_canon_step(s, 9);
    lemma_canon_step(s, 10);
    assert(s.take(11) =~= s);
    assert(trim_start(s) == s);
    assert(trim_end(s) == s);
    assert(canon_of(s) =~= canon_name(4));
}

proof fn lemma_canon_name_5()
    ensures
        canon_spec(spec_book(5).name@) == canon_name(5),
{
    reveal_strlit("Joshua");
    let s = "Joshua"@;
    assert(spec_book(5).name@ == s);
    assert(s.take(0) =~= Seq::<char>::empty());
    lemma_canon_step(s, 0);
    lemma_canon_step(s, 1);
    lemma_canon_step(s, 2);
    lemma_canon_step(s, 3);
    lemma_canon_step(s, 4);
    lemma_canon_step(s, 5);
    assert(s.take(6) =~= s);
    assert(trim_start(s) == s);
    assert(trim_end(s) == s);
    assert(canon_of(s) =~= canon_name(5));
}

proof fn lemma_canon_name_6()
    ensures
        canon_spec(spec_book(6).name@) == canon_name(6),
{
    reveal_strlit("Judges");
    let s = "Judges"@;
    assert(spec_book(6).name@ == s);
    assert(s.take(0) =~= Seq::<char>::empty());
    lemma_canon_step(s, 0);
    lemma_canon_step(s, 1);
    lemma_canon_step(s, 2);
    lemma_canon_step(s, 3);
    lemma_canon_step(s, 4);
    lemma_canon_step(s, 5);
    assert(s.take(6) =~= s);
    assert(trim_start(s) == s);
    assert(trim_end(s) == s);
    assert(canon_of(s) =~= canon_name(6));
}

proof fn lemma_canon_name_7()
    ensures
        canon_spec(spec_book(7).name@) == canon_name(7),
{
    reveal_strlit("Ruth");
    let s = "Ruth"@;
    assert(spec_book(7).name@ == s);
    assert(s.take(0) =~= Seq::<char>::empty());
    lemma_canon_step(s, 0);
    lemma_canon_step(s, 1);
    lemma_canon_step(s, 2);
    lemma_canon_step(s, 3);
    assert(s.take(4) =~= s);
    assert(trim_start(s) == s);
    assert(trim_end(s) == s);
    assert(canon_of(s) =~= canon_name(7));
}

proof fn lemma_canon_name_8()
    ensures
        canon_spec(spec_book(8).name@) == canon_name(8),
{
    reveal_strlit("1 Samuel");
    let s = "1 Samuel"@;
    assert(spec_book(8).name@ == s);
    assert(s.take(0) =~= Seq::<char>::empty());
    lemma_canon_step(s, 0);
    lemma_canon_step(s, 1);
    lemma_canon_step(s, 2);
    lemma_canon_step(s, 3);
    lemma_canon_step(s, 4);
    lemma_canon_step(s, 5);
    lemma_canon_step(s, 6);
    lemma_canon_step(s, 7);
    assert(s.take(8) =~= s);
    assert(trim_start(s) == s);
    assert(trim_end(s) == s);
    assert(canon_of(s) =~= canon_name(8));
}

proof fn lemma_canon_name_9()
    ensures
        canon_spec(spec_book(9).name@) == canon_name(9),
{
    reveal_strlit("2 Samuel");
    let s = "2 Samuel"@;
    assert(spec_book(9).name@ == s);
    assert(s.take(0) =~= Seq::<char>::empty());
    lemma_canon_step(s, 0);
    lemma_canon_step(s, 1);
    lemma_canon_step(s, 2);
    lemma_canon_step(s, 3);
    lemma_canon_step(s, 4);
    lemma_canon_step(s, 5);
    lemma_canon_step(s, 6);
    lemma_canon_step(s, 7);
    assert(s.take(8) =~= s);
    assert(trim_start(s) == s);
    assert(trim_end(s) == s);
    assert(canon_of(s) =~= canon_name(9));
}

proof fn lemma_canon_name_10()
    ensures
        canon_spec(spec_book(10).name@) == canon_name(10),
{
    reveal_strlit("1 Kings");
    let s = "1 Kings"@;
    assert(spec_book(10).name@ == s);
    assert(s.take(0) =~= Seq::<char>::empty());
    lemma_canon_step(s, 0);
    lemma_canon_step(s, 1);
    lemma_canon_step(s, 2);
    lemma_canon_step(s, 3);
    lemma_canon_step(s, 4);
    lemma_canon_step(s, 5);
    lemma_canon_step(s, 6);
    assert(s.take(7) =~= s);
    assert(trim_start(s) == s);
    assert(trim_end(s) == s);
    assert(canon_of(s) =~= canon_name(10));
}

proof fn lemma_canon_name_11()
    ensures
        canon_spec(spec_book(11).name@) == canon_name(11),
{
    reveal_strlit("2 Kings");
    let s = "2 Kings"@;
    assert(spec_book(11).name@ == s);
    assert(s.take(0) =~= Seq::<char>::empty());
    lemma_canon_step(s, 0);
    lemma_canon_step(s, 1);
    lemma_canon_step(s, 2);
    lemma_canon_step(s, 3);
    lemma_canon_step(s, 4);
    lemma_canon_step(s, 5);
    lemma_canon_step(s, 6);
    assert(s.take(7) =~= s);
    assert(trim_start(s) == s);
    assert(trim_end(s) == s);
    assert(canon_of(s) =~= canon_name(11));
}

proof fn lemma_canon_name_12()
    ensures
        canon_spec(spec_book(12).name@) == canon_name(12),
{
    reveal_strlit("1 Chronicles");
    let s = "1 Chronicles"@;
    assert(spec_book(12).name@ == s);
    assert(s.take(0) =~= Seq::<char>::empty());
    lemma_canon_step(s, 0);
    lemma_canon_step(s, 1);
    lemma_canon_step(s, 2);
    lemma_canon_step(s, 3);
    lemma_canon_step(s, 4);
    lemma_canon_step(s, 5);
    lemma_canon_step(s, 6);
    lemma_canon_step(s, 7);
    lemma_canon_step(s, 8);
    lemma_canon_step(s, 9);
    lemma_canon_step(s, 10);
    lemma_canon_step(s, 11);
    assert(s.take(12) =~= s);
    assert(trim_start(s) == s);
    assert(trim_end(s) == s);
    assert(canon_of(s) =~= canon_name(12));
}

proof fn lemma_canon_name_13()
    ensures
        canon_spec(spec_book(13).name@) == canon_name(13),
{
    reveal_strlit("2 Chronicles");
    let s = "2 Chronicles"@;
    assert(spec_book(13).name@ == s);
    assert(s.take(0) =~= Seq::<char>::empty());
    lemma_canon_step(s, 0);
    lemma_canon_step(s, 1);
    lemma_canon_step(s, 2);
    lemma_canon_step(s, 3);
    lemma_canon_step(s, 4);
    lemma_canon_step(s, 5);
    lemma_canon_step(s, 6);
    lemma_canon_step(s, 7);
    lemma_canon_step(s, 8);
    lemma_canon_step(s, 9);
    lemma_canon_step(s, 10);
    lemma_canon_step(s, 11);
    assert(s.take(12) =~= s);
    assert(trim_start(s) == s);
    assert(trim_end(s) == s);
    assert(canon_of(s) =~= canon_name(13));
}

proof fn lemma_canon_name_14()
    ensures
        canon_spec(spec_book(14).name@) == canon_name(14),
{
    reveal_strlit("Ezra");
    let s = "Ezra"@;
    assert(spec_book(14).name@ == s);
    assert(s.take(0) =~= Seq::<char>::empty());
    lemma_canon_step(s, 0);
    lemma_canon_step(s, 1);
    lemma_canon_step(s, 2);
    lemma_canon_step(s, 3);
    assert(s.take(4) =~= s);
    assert(trim_start(s) == s);
    assert(trim_end(s) == s);
    assert(canon_of(s) =~= canon_name(14));
}

proof fn lemma_canon_name_15()
    ensures
        canon_spec(spec_book(15).name@) == canon_name(15),
{
    reveal_strlit("Nehemiah");
    let s = "Nehemiah"@;
    assert(spec_book(15).name@ == s);
    assert(s.take(0) =~= Seq::<char>::empty());
    lemma_canon_step(s, 0);
    lemma_canon_step(s, 1);
    lemma_canon_step(s, 2);
    lemma_canon_step(s, 3);
    lemma_canon_step(s, 4);
    lemma_canon_step(s, 5);
    lemma_canon_step(s, 6);
    lemma_canon_step(s, 7);
    assert(s.take(8) =~= s);
    assert(trim_start(s) == s);
    assert(trim_end(s) == s);
    assert(canon_of(s) =~= canon_name(15));
}

proof fn lemma_canon_name_16()
    ensures
        canon_spec(spec_book(16).name@) == canon_name(16),
{
    reveal_strlit("Esther");
    let s = "Esther"@;
    assert(spec_book(16).name@ == s);
    assert(s.take(0) =~= Seq::<char>::empty());
    lemma_canon_step(s, 0);
    lemma_canon_step(s, 1);
    lemma_canon_step(s, 2);
    lemma_canon_step(s, 3);
    lemma_canon_step(s, 4);
    lemma_canon_step(s, 5);
    assert(s.take(6) =~= s);
    assert(trim_start(s) == s);
    assert(trim_end(s) == s);
    assert(canon_of(s) =~= canon_name(16));
}

proof fn lemma_canon_name_17()
    ensures
        canon_spec(spec_book(17).name@) == canon_name(17),
{
    reveal_strlit("Job");
    let s = "Job"@;
    assert(spec_book(17).name@ == s);
    assert(s.take(0) =~= Seq::<char>::empty());
    lemma_canon_step(s, 0);
    lemma_canon_step(s, 1);
    lemma_canon_step(s, 2);
    assert(s.take(3) =~= s);
    assert(trim_start(s) == s);
    assert(trim_end(s) == s);
    assert(canon_of(s) =~= canon_name(17));
}

proof fn lemma_canon_name_18()
    ensures
        canon_spec(spec_book(18).name@) == canon_name(18),
{
    reveal_strlit("Psalms");
    let s = "Psalms"@;
    assert(spec_book(18).name@ == s);
    assert(s.take(0) =~= Seq::<char>::empty());
    lemma_canon_step(s, 0);
    lemma_canon_step(s, 1);
    lemma_canon_step(s, 2);
    lemma_canon_step(s, 3);
    lemma_canon_step(s, 4);
    lemma_canon_step(s, 5);
    assert(s.take(6) =~= s);
    assert(trim_start(s) == s);
    assert(trim_end(s) == s);
    assert(canon_of(s) =~= canon_name(18));
}

proof fn lemma_canon_name_19()
    ensures
        canon_spec(spec_book(19).name@) == canon_name(19),
{
    reveal_strlit("Proverbs");
    let s = "Proverbs"@;
    assert(spec_book(19).name@ == s);
    assert(s.take(0) =~= Seq::<char>::empty());
    lemma_canon_step(s, 0);
    lemma_canon_step(s, 1);
    lemma_canon_step(s, 2);
    lemma_canon_step(s, 3);
    lemma_canon_step(s, 4);
    lemma_canon_step(s, 5);
    lemma_canon_step(s, 6);
    lemma_canon_step(s, 7);
    assert(s.take(8) =~= s);
    assert(trim_start(s) == s);
    assert(trim_end(s) == s);
    assert(canon_of(s) =~= canon_name(19));
}

proof fn lemma_canon_name_20()
    ensures
        canon_spec(spec_book(20).name@) == canon_name(20),
{
    reveal_strlit("Ecclesiastes");
    let s = "Ecclesiastes"@;
    assert(spec_book(20).name@ == s);
    assert(s.take(0) =~= Seq::<char>::empty());
    lemma_canon_step(s, 0);
    lemma_canon_step(s, 1);
    lemma_canon_step(s, 2);
    lemma_canon_step(s, 3);
    lemma_canon_step(s, 4);
    lemma_canon_step(s, 5);
    lemma_canon_step(s, 6);
    lemma_canon_step(s, 7);
    lemma_canon_step(s, 8);
    lemma_canon_step(s, 9);
    lemma_canon_step(s, 10);
    lemma_canon_step(s, 11);
    assert(s.take(12) =~= s);
    assert(trim_start(s) == s);
    assert(trim_end(s) == s);
    assert(canon_of(s) =~= canon_name(20));
}

proof fn lemma_canon_name_21()
    ensures
        canon_spec(spec_book(21).name@) == canon_name(21),
{
    reveal_strlit("Song of Solomon");
    let s = "Song of Solomon"@;
    assert(spec_book(21).name@ == s);
    assert(s.take(0) =~= Seq::<char>::empty());
    lemma_canon_step(s, 0);
    lemma_canon_step(s, 1);
    lemma_canon_step(s, 2);
    lemma_canon_step(s, 3);
    lemma_canon_step(s, 4);
    lemma_canon_step(s, 5);
    lemma_canon_step(s, 6);
    lemma_canon_step(s, 7);
    lemma_canon_step(s, 8);
    lemma_canon_step(s, 9);
    lemma_canon_step(s, 10);
    lemma_canon_step(s, 11);
    lemma_canon_step(s, 12);
    lemma_canon_step(s, 13);
    lemma_canon_step(s, 14);
    assert(s.take(15) =~= s);
    assert(trim_start(s) == s);
    assert(trim_end(s) == s);
    assert(canon_of(s) =~= canon_name(21));
}

proof fn lemma_canon_name_22()
    ensures
        canon_spec(spec_book(22).name@) == canon_name(22),
{
    reveal_strlit("Isaiah");
    let s = "Isaiah"@;
    assert(spec_book(22).name@ == s);
    assert(s.take(0) =~= Seq::<char>::empty());
    lemma_canon_step(s, 0);
    lemma_canon_step(s, 1);
    lemma_canon_step(s, 2);
    lemma_canon_step(s, 3);
    lemma_canon_step(s, 4);
    lemma_canon_step(s, 5);
    assert(s.take(6) =~= s);
    assert(trim_start(s) == s);
    assert(trim_end(s) == s);
    assert(canon_of(s) =~= canon_name(22));
}

proof fn lemma_canon_name_23()
    ensures
        canon_spec(spec_book(23).name@) == canon_name(23),
{
    reveal_strlit("Jeremiah");
    let s = "Jeremiah"@;
    assert(spec_book(23).name@ == s);
    assert(s.take(0) =~= Seq::<char>::empty());
    lemma_canon_step(s, 0);
    lemma_canon_step(s, 1);
    lemma_canon_step(s, 2);
    lemma_canon_step(s, 3);
    lemma_canon_step(s, 4);
    lemma_canon_step(s, 5);
    lemma_canon_step(s, 6);
    lemma_canon_step(s, 7);
    assert(s.take(8) =~= s);
    assert(trim_start(s) == s);
    assert(trim_end(s) == s);
    assert(canon_of(s) =~= canon_name(23));
}

proof fn lemma_canon_name_24()
    ensures
        canon_spec(spec_book(24).name@) == canon_name(24),
{
    reveal_strlit("Lamentations");
    let s = "Lamentations"@;
    assert(spec_book(24).name@ == s);
    assert(s.take(0) =~= Seq::<char>::empty());
    lemma_canon_step(s, 0);
    lemma_canon_step(s, 1);
    lemma_canon_step(s, 2);
    lemma_canon_step(s, 3);
    lemma_canon_step(s, 4);
    lemma_canon_step(s, 5);
    lemma_canon_step(s, 6);
    lemma_canon_step(s, 7);
    lemma_canon_step(s, 8);
    lemma_canon_step(s, 9);
    lemma_canon_step(s, 10);
    lemma_canon_step(s, 11);
    assert(s.take(12) =~= s);
    assert(trim_start(s) == s);
    assert(trim_end(s) == s);
    assert(canon_of(s) =~= canon_name(24));
}

proof fn lemma_canon_name_25()
    ensures
        canon_spec(spec_book(25).name@) == canon_name(25),
{
    reveal_strlit("Ezekiel");
    let s = "Ezekiel"@;
    assert(spec_book(25).name@ == s);
    assert(s.take(0) =~= Seq::<char>::empty());
    lemma_canon_step(s, 0);
    lemma_canon_step(s, 1);
    lemma_canon_step(s, 2);
    lemma_canon_step(s, 3);
    lemma_canon_step(s, 4);
    lemma_canon_step(s, 5);
    lemma_canon_step(s, 6);
    assert(s.take(7) =~= s);
    assert(trim_start(s) == s);
    assert(trim_end(s) == s);
    assert(canon_of(s) =~= canon_name(25));
}

proof fn lemma_canon_name_26()
    ensures
        canon_spec(spec_book(26).name@) == canon_name(26),
{
    reveal_strlit("Daniel");
    let s = "Daniel"@;
    assert(spec_book(26).name@ == s);
    assert(s.take(0) =~= Seq::<char>::empty());
    lemma_canon_step(s, 0);
    lemma_canon_step(s, 1);
    lemma_canon_step(s, 2);
    lemma_canon_step(s, 3);
    lemma_canon_step(s, 4);
    lemma_canon_step(s, 5);
    assert(s.take(6) =~= s);
    assert(trim_start(s) == s);
    assert(trim_end(s) == s);
    assert(canon_of(s) =~= canon_name(26));
}

proof fn lemma_canon_name_27()
    ensures
        canon_spec(spec_book(27).name@) == canon_name(27),
{
    reveal_strlit("Hosea");
    let s = "Hosea"@;
    assert(spec_book(27).name@ == s);
    assert(s.take(0) =~= Seq::<char>::empty());
    lemma_canon_step(s, 0);
    lemma_canon_step(s, 1);
    lemma_canon_step(s, 2);
    lemma_canon_step(s, 3);
    lemma_canon_step(s, 4);
    assert(s.take(5) =~= s);
    assert(trim_start(s) == s);
    assert(trim_end(s) == s);
    assert(canon_of(s) =~= canon_name(27));
}

proof fn lemma_canon_name_28()
    ensures
        canon_spec(spec_book(28).name@) == canon_name(28),
{
    reveal_strlit("Joel");
    let s = "Joel"@;
    assert(spec_book(28).name@ == s);
    assert(s.take(0) =~= Seq::<char>::empty());
    lemma_canon_step(s, 0);
    lemma_canon_step(s, 1);
    lemma_canon_step(s, 2);
    lemma_canon_step(s, 3);
    assert(s.take(4) =~= s);
    assert(trim_start(s) == s);
    assert(trim_end(s) == s);
    assert(canon_of(s) =~= canon_name(28));
}

proof fn lemma_canon_name_29()
    ensures
        canon_spec(spec_book(29).name@) == canon_name(29),
{
    reveal_strlit("Amos");
    let s = "Amos"@;
    assert(spec_book(29).name@ == s);
    assert(s.take(0) =~= Seq::<char>::empty());
    lemma_canon_step(s, 0);
    lemma_canon_step(s, 1);
    lemma_canon_step(s, 2);
    lemma_canon_step(s, 3);
    assert(s.take(4) =~= s);
    assert(trim_start(s) == s);
    assert(trim_end(s) == s);
    assert(canon_of(s) =~= canon_name(29));
}

proof fn lemma_canon_name_30()
    ensures
        canon_spec(spec_book(30).name@) == canon_name(30),
{
    reveal_strlit("Obadiah");
    let s = "Obadiah"@;
    assert(spec_book(30).name@ == s);
    assert(s.take(0) =~= Seq::<char>::empty());
    lemma_canon_step(s, 0);
    lemma_canon_step(s, 1);
    lemma_canon_step(s, 2);
    lemma_canon_step(s, 3);
    lemma_canon_step(s, 4);
    lemma_canon_step(s, 5);
    lemma_canon_step(s, 6);
    assert(s.take(7) =~= s);
    assert(trim_start(s) == s);
    assert(trim_end(s) == s);
    assert(canon_of(s) =~= canon_name(30));
}

proof fn lemma_canon_name_31()
    ensures
        canon_spec(spec_book(31).name@) == canon_name(31),
{
    reveal_strlit("Jonah");
    let s = "Jonah"@;
    assert(spec_book(31).name@ == s);
    assert(s.take(0) =~= Seq::<char>::empty());
    lemma_canon_step(s, 0);
    lemma_canon_step(s, 1);
    lemma_canon_step(s, 2);
    lemma_canon_step(s, 3);
    lemma_canon_step(s, 4);
    assert(s.take(5) =~= s);
    assert(trim_start(s) == s);
    assert(trim_end(s) == s);
    assert(canon_of(s) =~= canon_name(31));
}

proof fn lemma_canon_name_32()
    ensures
        canon_spec(spec_book(32).name@) == canon_name(32),
{
    reveal_strlit("Micah");
    let s = "Micah"@;
    assert(spec_book(32).name@ == s);
    assert(s.take(0) =~= Seq::<char>::empty());
    lemma_canon_step(s, 0);
    lemma_canon_step(s, 1);
    lemma_canon_step(s, 2);
    lemma_canon_step(s, 3);
    lemma_canon_step(s, 4);
    assert(s.take(5) =~= s);
    assert(trim_start(s) == s);
    assert(trim_end(s) == s);
    assert(canon_of(s) =~= canon_name(32));
}

proof fn lemma_canon_name_33()
    ensures
        canon_spec(spec_book(33).name@) == canon_name(33),
{
    reveal_strlit("Nahum");
    let s = "Nahum"@;
    assert(spec_book(33).name@ == s);
    assert(s.take(0) =~= Seq::<char>::empty());
    lemma_canon_step(s, 0);
    lemma_canon_step(s, 1);
    lemma_canon_step(s, 2);
    lemma_canon_step(s, 3);
    lemma_canon_step(s, 4);
    assert(s.take(5) =~= s);
    assert(trim_start(s) == s);
    assert(trim_end(s) == s);
    assert(canon_of(s) =~= canon_name(33));
}

proof fn lemma_canon_name_34()
    ensures
        canon_spec(spec_book(34).name@) == canon_name(34),
{
    reveal_strlit("Habakkuk");
    let s = "Habakkuk"@;
    assert(spec_book(34).name@ == s);
    assert(s.take(0) =~= Seq::<char>::empty());
    lemma_canon_step(s, 0);
    lemma_canon_step(s, 1);
    lemma_canon_step(s, 2);
    lemma_canon_step(s, 3);
    lemma_canon_step(s, 4);
    lemma_canon_step(s, 5);
    lemma_canon_step(s, 6);
    lemma_canon_step(s, 7);
    assert(s.take(8) =~= s);
    assert(trim_start(s) == s);
    assert(trim_end(s) == s);
    assert(canon_of(s) =~= canon_name(34));
}

proof fn lemma_canon_name_35()
    ensures
        canon_spec(spec_book(35).name@) == canon_name(35),
{
    reveal_strlit("Zephaniah");
    let s = "Zephaniah"@;
    assert(spec_book(35).name@ == s);
    assert(s.take(0) =~= Seq::<char>::empty());
    lemma_canon_step(s, 0);
    lemma_canon_step(s, 1);
    lemma_canon_step(s, 2);
    lemma_canon_step(s, 3);
    lemma_canon_step(s, 4);
    lemma_canon_step(s, 5);
    lemma_canon_step(s, 6);
    lemma_canon_step(s, 7);
    lemma_canon_step(s, 8);
    assert(s.take(9) =~= s);
    assert(trim_start(s) == s);
    assert(trim_end(s) == s);
    assert(canon_of(s) =~= canon_name(35));
}

proof fn lemma_canon_name_36()
    ensures
        canon_spec(spec_book(36).name@) == canon_name(36),
{
    reveal_strlit("Haggai");
    let s = "Haggai"@;
    assert(spec_book(36).name@ == s);
    assert(s.take(0) =~= Seq::<char>::empty());
    lemma_canon_step(s, 0);
    lemma_canon_step(s, 1);
    lemma_canon_step(s, 2);
    lemma_canon_step(s, 3);
    lemma_canon_step(s, 4);
    lemma_canon_step(s, 5);
    assert(s.take(6) =~= s);
    assert(trim_start(s) == s);
    assert(trim_end(s) == s);
    assert(canon_of(s) =~= canon_name(36));
}

proof fn lemma_canon_name_37()
    ensures
        canon_spec(spec_book(37).name@) == canon_name(37),
{
    reveal_strlit("Zechariah");
    let s = "Zechariah"@;
    assert(spec_book(37).name@ == s);
    assert(s.take(0) =~= Seq::<char>::empty());
    lemma_canon_step(s, 0);
    lemma_canon_step(s, 1);
    lemma_canon_step(s, 2);
    lemma_canon_step(s, 3);
    lemma_canon_step(s, 4);
    lemma_canon_step(s, 5);
    lemma_canon_step(s, 6);
    lemma_canon_step(s, 7);
    lemma_canon_step(s, 8);
    assert(s.take(9) =~= s);
    assert(trim_start(s) == s);
    assert(trim_end(s) == s);
    assert(canon_of(s) =~= canon_name(37));
}

proof fn lemma_canon_name_38()
    ensures
        canon_spec(spec_book(38).name@) == canon_name(38),
{
    reveal_strlit("Malachi");
    let s = "Malachi"@;
    assert(spec_book(38).name@ == s);
    assert(s.take(0) =~= Seq::<char>::empty());
    lemma_canon_step(s, 0);
    lemma_canon_step(s, 1);
    lemma_canon_step(s, 2);
    lemma_canon_step(s, 3);
    lemma_canon_step(s, 4);
    lemma_canon_step(s, 5);
    lemma_canon_step(s, 6);
    assert(s.take(7) =~= s);
    assert(trim_start(s) == s);
    assert(trim_end(s) == s);
    assert(canon_of(s) =~= canon_name(38));
}

proof fn lemma_canon_name_39()
    ensures
        canon_spec(spec_book(39).name@) == canon_name(39),
{
    reveal_strlit("Matthew");
    let s = "Matthew"@;
    assert(spec_book(39).name@ == s);
    assert(s.take(0) =~= Seq::<char>::empty());
    lemma_canon_step(s, 0);
    lemma_canon_step(s, 1);
    lemma_canon_step(s, 2);
    lemma_canon_step(s, 3);
    lemma_canon_step(s, 4);
    lemma_canon_step(s, 5);
    lemma_canon_step(s, 6);
    assert(s.take(7) =~= s);
    assert(trim_start(s) == s);
    assert(trim_end(s) == s);
    assert(canon_of(s) =~= canon_name(39));
}

proof fn lemma_canon_name_40()
    ensures
        canon_spec(spec_book(40).name@) == canon_name(40),
{
    reveal_strlit("Mark");
    let s = "Mark"@;
    assert(spec_book(40).name@ == s);
    assert(s.take(0) =~= Seq::<char>::empty());
    lemma_canon_step(s, 0);
    lemma_canon_step(s, 1);
    lemma_canon_step(s, 2);
    lemma_canon_step(s, 3);
    assert(s.take(4) =~= s);
    assert(trim_start(s) == s);
    assert(trim_end(s) == s);
    assert(canon_of(s) =~= canon_name(40));
}

proof fn lemma_canon_name_41()
    ensures
        canon_spec(spec_book(41).name@) == canon_name(41),
{
    reveal_strlit("Luke");
    let s = "Luke"@;
    assert(spec_book(41).name@ == s);
    assert(s.take(0) =~= Seq::<char>::empty());
    lemma_canon_step(s, 0);
    lemma_canon_step(s, 1);
    lemma_canon_step(s, 2);
    lemma_canon_step(s, 3);
    assert(s.take(4) =~= s);
    assert(trim_start(s) == s);
    assert(trim_end(s) == s);
    assert(canon_of(s) =~= canon_name(41));
}

proof fn lemma_canon_name_42()
    ensures
        canon_spec(spec_book(42).name@) == canon_name(42),
{
    reveal_strlit("John");
    let s = "John"@;
    assert(spec_book(42).name@ == s);
    assert(s.take(0) =~= Seq::<char>::empty());
    lemma_canon_step(s, 0);
    lemma_canon_step(s, 1);
    lemma_canon_step(s, 2);
    lemma_canon_step(s, 3);
    assert(s.take(4) =~= s);
    assert(trim_start(s) == s);
    assert(trim_end(s) == s);
    assert(canon_of(s) =~= canon_name(42));
}

proof fn lemma_canon_name_43()
    ensures
        canon_spec(spec_book(43).name@) == canon_name(43),
{
    reveal_strlit("Acts");
    let s = "Acts"@;
    assert(spec_book(43).name@ == s);
    assert(s.take(0) =~= Seq::<char>::empty());
    lemma_canon_step(s, 0);
    lemma_canon_step(s, 1);
    lemma_canon_step(s, 2);
    lemma_canon_step(s, 3);
    assert(s.take(4) =~= s);
    assert(trim_start(s) == s);
    assert(trim_end(s) == s);
    assert(canon_of(s) =~= canon_name(43));
}

proof fn lemma_canon_name_44()
    ensures
        canon_spec(spec_book(44).name@) == canon_name(44),
{
    reveal_strlit("Romans");
    let s = "Romans"@;
    assert(spec_book(44).name@ == s);
    assert(s.take(0) =~= Seq::<char>::empty());
    lemma_canon_step(s, 0);
    lemma_canon_step(s, 1);
    lemma_canon_step(s, 2);
    lemma_canon_step(s, 3);
    lemma_canon_step(s, 4);
    lemma_canon_step(s, 5);
    assert(s.take(6) =~= s);
    assert(trim_start(s) == s);
    assert(trim_end(s) == s);
    assert(canon_of(s) =~= canon_name(44));
}

proof fn lemma_canon_name_45()
    ensures
        canon_spec(spec_book(45).name@) == canon_name(45),
{
    reveal_strlit("1 Corinthians");
    let s = "1 Corinthians"@;
    assert(spec_book(45).name@ == s);
    assert(s.take(0) =~= Seq::<char>::empty());
    lemma_canon_step(s, 0);
    lemma_canon_step(s, 1);
    lemma_canon_step(s, 2);
    lemma_canon_step(s, 3);
    lemma_canon_step(s, 4);
    lemma_canon_step(s, 5);
    lemma_canon_step(s, 6);
    lemma_canon_step(s, 7);
    lemma_canon_step(s, 8);
    lemma_canon_step(s, 9);
    lemma_canon_step(s, 10);
    lemma_canon_step(s, 11);
    lemma_canon_step(s, 12);
    assert(s.take(13) =~= s);
    assert(trim_start(s) == s);
    assert(trim_end(s) == s);
    assert(canon_of(s) =~= canon_name(45));
}

proof fn lemma_canon_name_46()
    ensures
        canon_spec(spec_book(46).name@) == canon_name(46),
{
    reveal_strlit("2 Corinthians");
    let s = "2 Corinthians"@;
    assert(spec_book(46).name@ == s);
    assert(s.take(0) =~= Seq::<char>::empty());
    lemma_canon_step(s, 0);
    lemma_canon_step(s, 1);
    lemma_canon_step(s, 2);
    lemma_canon_step(s, 3);
    lemma_canon_step(s, 4);
    lemma_canon_step(s, 5);
    lemma_canon_step(s, 6);
    lemma_canon_step(s, 7);
    lemma_canon_step(s, 8);
    lemma_canon_step(s, 9);
    lemma_canon_step(s, 10);
    lemma_canon_step(s, 11);
    lemma_canon_step(s, 12);
    assert(s.take(13) =~= s);
    assert(trim_start(s) == s);
    assert(trim_end(s) == s);
    assert(canon_of(s) =~= canon_name(46));
}

proof fn lemma_canon_name_47()
    ensures
        canon_spec(spec_book(47).name@) == canon_name(47),
{
    reveal_strlit("Galatians");
    let s = "Galatians"@;
    assert(spec_book(47).name@ == s);
    assert(s.take(0) =~= Seq::<char>::empty());
    lemma_canon_step(s, 0);
    lemma_canon_step(s, 1);
    lemma_canon_step(s, 2);
    lemma_canon_step(s, 3);
    lemma_canon_step(s, 4);
    lemma_canon_step(s, 5);
    lemma_canon_step(s, 6);
    lemma_canon_step(s, 7);
    lemma_canon_step(s, 8);
    assert(s.take(9) =~= s);
    assert(trim_start(s) == s);
    assert(trim_end(s) == s);
    assert(canon_of(s) =~= canon_name(47));
}

proof fn lemma_canon_name_48()
    ensures
        canon_spec(spec_book(48).name@) == canon_name(48),
{
    reveal_strlit("Ephesians");
    let s = "Ephesians"@;
    assert(spec_book(48).name@ == s);
    assert(s.take(0) =~= Seq::<char>::empty());
    lemma_canon_step(s, 0);
    lemma_canon_step(s, 1);
    lemma_canon_step(s, 2);
    lemma_canon_step(s, 3);
    lemma_canon_step(s, 4);
    lemma_canon_step(s, 5);
    lemma_canon_step(s, 6);
    lemma_canon_step(s, 7);
    lemma_canon_step(s, 8);
    assert(s.take(9) =~= s);
    assert(trim_start(s) == s);
    assert(trim_end(s) == s);
    assert(canon_of(s) =~= canon_name(48));
}

proof fn lemma_canon_name_49()
    ensures
        canon_spec(spec_book(49).name@) == canon_name(49),
{
    reveal_strlit("Philippians");
    let s = "Philippians"@;
    assert(spec_book(49).name@ == s);
    assert(s.take(0) =~= Seq::<char>::empty());
    lemma_canon_step(s, 0);
    lemma_canon_step(s, 1);
    lemma_canon_step(s, 2);
    lemma_canon_step(s, 3);
    lemma_canon_step(s, 4);
    lemma_canon_step(s, 5);
    lemma_canon_step(s, 6);
    lemma_canon_step(s, 7);
    lemma_canon_step(s, 8);
    lemma_canon_step(s, 9);
    lemma_canon_step(s, 10);
    assert(s.take(11) =~= s);
    assert(trim_start(s) == s);
    assert(trim_end(s) == s);
    assert(canon_of(s) =~= canon_name(49));
}

proof fn lemma_canon_name_50()
    ensures
        canon_spec(spec_book(50).name@) == canon_name(50),
{
    reveal_strlit("Colossians");
    let s = "Colossians"@;
    assert(spec_book(50).name@ == s);
    assert(s.take(0) =~= Seq::<char>::empty());
    lemma_canon_step(s, 0);
    lemma_canon_step(s, 1);
    lemma_canon_step(s, 2);
    lemma_canon_step(s, 3);
    lemma_canon_step(s, 4);
    lemma_canon_step(s, 5);
    lemma_canon_step(s, 6);
    lemma_canon_step(s, 7);
    lemma_canon_step(s, 8);
    lemma_canon_step(s, 9);
    assert(s.take(10) =~= s);
    assert(trim_start(s) == s);
    assert(trim_end(s) == s);
    assert(canon_of(s) =~= canon_name(50));
}

proof fn lemma_canon_name_51()
    ensures
        canon_spec(spec_book(51).name@) == canon_name(51),
{
    reveal_strlit("1 Thessalonians");
    let s = "1 Thessalonians"@;
    assert(spec_book(51).name@ == s);
    assert(s.take(0) =~= Seq::<char>::empty());
    lemma_canon_step(s, 0);
    lemma_canon_step(s, 1);
    lemma_canon_step(s, 2);
    lemma_canon_step(s, 3);
    lemma_canon_step(s, 4);
    lemma_canon_step(s, 5);
    lemma_canon_step(s, 6);
    lemma_canon_step(s, 7);
    lemma_canon_step(s, 8);
    lemma_canon_step(s, 9);
    lemma_canon_step(s, 10);
    lemma_canon_step(s, 11);
    lemma_canon_step(s, 12);
    lemma_canon_step(s, 13);
    lemma_canon_step(s, 14);
    assert(s.take(15) =~= s);
    assert(trim_start(s) == s);
    assert(trim_end(s) == s);
    assert(canon_of(s) =~= canon_name(51));
}

proof fn lemma_canon_name_52()
    ensures
        canon_spec(spec_book(52).name@) == canon_name(52),
{
    reveal_strlit("2 Thessalonians");
    let s = "2 Thessalonians"@;
    assert(spec_book(52).name@ == s);
    assert(s.take(0) =~= Seq::<char>::empty());
    lemma_canon_step(s, 0);
    lemma_canon_step(s, 1);
    lemma_canon_step(s, 2);
    lemma_canon_step(s, 3);
    lemma_canon_step(s, 4);
    lemma_canon_step(s, 5);
    lemma_canon_step(s, 6);
    lemma_canon_step(s, 7);
    lemma_canon_step(s, 8);
    lemma_canon_step(s, 9);
    lemma_canon_step(s, 10);
    lemma_canon_step(s, 11);
    lemma_canon_step(s, 12);
    lemma_canon_step(s, 13);
    lemma_canon_step(s, 14);
    assert(s.take(15) =~= s);
    assert(trim_start(s) == s);
    assert(trim_end(s) == s);
    assert(canon_of(s) =~= canon_name(52));
}

proof fn lemma_canon_name_53()
    ensures
        canon_spec(spec_book(53).name@) == canon_name(53),
{
    reveal_strlit("1 Timothy");
    let s = "1 Timothy"@;
    assert(spec_book(53).name@ == s);
    assert(s.take(0) =~= Seq::<char>::empty());
    lemma_canon_step(s, 0);
    lemma_canon_step(s, 1);
    lemma_canon_step(s, 2);
    lemma_canon_step(s, 3);
    lemma_canon_step(s, 4);
    lemma_canon_step(s, 5);
    lemma_canon_step(s, 6);
    lemma_canon_step(s, 7);
    lemma_canon_step(s, 8);
    assert(s.take(9) =~= s);
    assert(trim_start(s) == s);
    assert(trim_end(s) == s);
    assert(canon_of(s) =~= canon_name(53));
}

proof fn lemma_canon_name_54()
    ensures
        canon_spec(spec_book(54).name@) == canon_name(54),
{
    reveal_strlit("2 Timothy");
    let s = "2 Timothy"@;
    assert(spec_book(54).name@ == s);
    assert(s.take(0) =~= Seq::<char>::empty());
    lemma_canon_step(s, 0);
    lemma_canon_step(s, 1);
    lemma_canon_step(s, 2);
    lemma_canon_step(s, 3);
    lemma_canon_step(s, 4);
    lemma_canon_step(s, 5);
    lemma_canon_step(s, 6);
    lemma_canon_step(s, 7);
    lemma_canon_step(s, 8);
    assert(s.take(9) =~= s);
    assert(trim_start(s) == s);
    assert(trim_end(s) == s);
    assert(canon_of(s) =~= canon_name(54));
}

proof fn lemma_canon_name_55()
    ensures
        canon_spec(spec_book(55).name@) == canon_name(55),
{
    reveal_strlit("Titus");
    let s = "Titus"@;
    assert(spec_book(55).name@ == s);
    assert(s.take(0) =~= Seq::<char>::empty());
    lemma_canon_step(s, 0);
    lemma_canon_step(s, 1);
    lemma_canon_step(s, 2);
    lemma_canon_step(s, 3);
    lemma_canon_step(s, 4);
    assert(s.take(5) =~= s);
    assert(trim_start(s) == s);
    assert(trim_end(s) == s);
    assert(canon_of(s) =~= canon_name(55));
}

proof fn lemma_canon_name_56()
    ensures
        canon_spec(spec_book(56).name@) == canon_name(56),
{
    reveal_strlit("Philemon");
    let s = "Philemon"@;
    assert(spec_book(56).name@ == s);
    assert(s.take(0) =~= Seq::<char>::empty());
    lemma_canon_step(s, 0);
    lemma_canon_step(s, 1);
    lemma_canon_step(s, 2);
    lemma_canon_step(s, 3);
    lemma_canon_step(s, 4);
    lemma_canon_step(s, 5);
    lemma_canon_step(s, 6);
    lemma_canon_step(s, 7);
    assert(s.take(8) =~= s);
    assert(trim_start(s) == s);
    assert(trim_end(s) == s);
    assert(canon_of(s) =~= canon_name(56));
}

proof fn lemma_canon_name_57()
    ensures
        canon_spec(spec_book(57).name@) == canon_name(57),
{
    reveal_strlit("Hebrews");
    let s = "Hebrews"@;
    assert(spec_book(57).name@ == s);
    assert(s.take(0) =~= Seq::<char>::empty());
    lemma_canon_step(s, 0);
    lemma_canon_step(s, 1);
    lemma_canon_step(s, 2);
    lemma_canon_step(s, 3);
    lemma_canon_step(s, 4);
    lemma_canon_step(s, 5);
    lemma_canon_step(s, 6);
    assert(s.take(7) =~= s);
    assert(trim_start(s) == s);
    assert(trim_end(s) == s);
    assert(canon_of(s) =~= canon_name(57));
}

proof fn lemma_canon_name_58()
    ensures
        canon_spec(spec_book(58).name@) == canon_name(58),
{
    reveal_strlit("James");
    let s = "James"@;
    assert(spec_book(58).name@ == s);
    assert(s.take(0) =~= Seq::<char>::empty());
    lemma_canon_step(s, 0);
    lemma_canon_step(s, 1);
    lemma_canon_step(s, 2);
    lemma_canon_step(s, 3);
    lemma_canon_step(s, 4);
    assert(s.take(5) =~= s);
    assert(trim_start(s) == s);
    assert(trim_end(s) == s);
    assert(canon_of(s) =~= canon_name(58));
}

proof fn lemma_canon_name_59()
    ensures
        canon_spec(spec_book(59).name@) == canon_name(59),
{
    reveal_strlit("1 Peter");
    let s = "1 Peter"@;
    assert(spec_book(59).name@ == s);
    assert(s.take(0) =~= Seq::<char>::empty());
    lemma_canon_step(s, 0);
    lemma_canon_step(s, 1);
    lemma_canon_step(s, 2);
    lemma_canon_step(s, 3);
    lemma_canon_step(s, 4);
    lemma_canon_step(s, 5);
    lemma_canon_step(s, 6);
    assert(s.take(7) =~= s);
    assert(trim_start(s) == s);
    assert(trim_end(s) == s);
    assert(canon_of(s) =~= canon_name(59));
}

proof fn lemma_canon_name_60()
    ensures
        canon_spec(spec_book(60).name@) == canon_name(60),
{
    reveal_strlit("2 Peter");
    let s = "2 Peter"@;
    assert(spec_book(60).name@ == s);
    assert(s.take(0) =~= Seq::<char>::empty());
    lemma_canon_step(s, 0);
    lemma_canon_step(s, 1);
    lemma_canon_step(s, 2);
    lemma_canon_step(s, 3);
    lemma_canon_step(s, 4);
    lemma_canon_step(s, 5);
    lemma_canon_step(s, 6);
    assert(s.take(7) =~= s);
    assert(trim_start(s) == s);
    assert(trim_end(s) == s);
    assert(canon_of(s) =~= canon_name(60));
}

proof fn lemma_canon_name_61()
    ensures
        canon_spec(spec_book(61).name@) == canon_name(61),
{
    reveal_strlit("1 John");
    let s = "1 John"@;
    assert(spec_book(61).name@ == s);
    assert(s.take(0) =~= Seq::<char>::empty());
    lemma_canon_step(s, 0);
    lemma_canon_step(s, 1);
    lemma_canon_step(s, 2);
    lemma_canon_step(s, 3);
    lemma_canon_step(s, 4);
    lemma_canon_step(s, 5);
    assert(s.take(6) =~= s);
    assert(trim_start(s) == s);
    assert(trim_end(s) == s);
    assert(canon_of(s) =~= canon_name(61));
}

proof fn lemma_canon_name_62()
    ensures
        canon_spec(spec_book(62).name@) == canon_name(62),
{
    reveal_strlit("2 John");
    let s = "2 John"@;
    assert(spec_book(62).name@ == s);
    assert(s.take(0) =~= Seq::<char>::empty());
    lemma_canon_step(s, 0);
    lemma_canon_step(s, 1);
    lemma_canon_step(s, 2);
    lemma_canon_step(s, 3);
    lemma_canon_step(s, 4);
    lemma_canon_step(s, 5);
    assert(s.take(6) =~= s);
    assert(trim_start(s) == s);
    assert(trim_end(s) == s);
    assert(canon_of(s) =~= canon_name(62));
}

proof fn lemma_canon_name_63()
    ensures
        canon_spec(spec_book(63).name@) == canon_name(63),
{
    reveal_strlit("3 John");
    let s = "3 John"@;
    assert(spec_book(63).name@ == s);
    assert(s.take(0) =~= Seq::<char>::empty());
    lemma_canon_step(s, 0);
    lemma_canon_step(s, 1);
    lemma_canon_step(s, 2);
    lemma_canon_step(s, 3);
    lemma_canon_step(s, 4);
    lemma_canon_step(s, 5);
    assert(s.take(6) =~= s);
    assert(trim_start(s) == s);
    assert(trim_end(s) == s);
    assert(canon_of(s) =~= canon_name(63));
}

proof fn lemma_canon_name_64()
    ensures
        canon_spec(spec_book(64).name@) == canon_name(64),
{
    reveal_strlit("Jude");
    let s = "Jude"@;
    assert(spec_book(64).name@ == s);
    assert(s.take(0) =~= Seq::<char>::empty());
    lemma_canon_step(s, 0);
    lemma_canon_step(s, 1);
    lemma_canon_step(s, 2);
    lemma_canon_step(s, 3);
    assert(s.take(4) =~= s);
    assert(trim_start(s) == s);
    assert(trim_end(s) == s);
    assert(canon_of(s) =~= canon_name(64));
}

proof fn lemma_canon_name_65()
    ensures
        canon_spec(spec_book(65).name@) == canon_name(65),
{
    reveal_strlit("Revelation");
    let s = "Revelation"@;
    assert(spec_book(65).name@ == s);
    assert(s.take(0) =~= Seq::<char>::empty());
    lemma_canon_step(s, 0);
    lemma_canon_step(s, 1);
    lemma_canon_step(s, 2);
    lemma_canon_step(s, 3);
    lemma_canon_step(s, 4);
    lemma_canon_step(s, 5);
    lemma_canon_step(s, 6);
    lemma_canon_step(s, 7);
    lemma_canon_step(s, 8);
    lemma_canon_step(s, 9);
    assert(s.take(10) =~= s);
    assert(trim_start(s) == s);
    assert(trim_end(s) == s);
    assert(canon_of(s) =~= canon_name(65));
}

proof fn lemma_canon_names()
    ensures
        forall|j: int| 0 <= j < BOOK_COUNT ==> #[trigger] canon_spec(spec_book(j).name@) == canon_name(j) && canon_name(j).len() > 0,
{
    assert forall|j: int| 0 <= j < BOOK_COUNT implies #[trigger] canon_spec(spec_book(j).name@) == canon_name(j) && canon_name(j).len() > 0 by {
        if j == 0 {
            lemma_canon_name_0();
        } else if j == 1 {
            lemma_canon_name_1();
        } else if j == 2 {
            lemma_canon_name_2();
        } else if j == 3 {
            lemma_canon_name_3();
        } else if j == 4 {
            lemma_canon_name_4();
        } else if j == 5 {
            lemma_canon_name_5();
        } else if j == 6 {
            lemma_canon_name_6();
        } else if j == 7 {
            lemma_canon_name_7();
        } else if j == 8 {
            lemma_canon_name_8();
        } else if j == 9 {
            lemma_canon_name_9();
        } else if j == 10 {
            lemma_canon_name_10();
        } else if j == 11 {
            lemma_canon_name_11();
        } else if j == 12 {
            lemma_canon_name_12();
        } else if j == 13 {
            lemma_canon_name_13();
        } else if j == 14 {
            lemma_canon_name_14();
        } else if j == 15 {
            lemma_canon_name_15();
        } else if j == 16 {
            lemma_canon_name_16();
        } else if j == 17 {
            lemma_canon_name_17();
        } else if j == 18 {
            lemma_canon_name_18();
        } else if j == 19 {
            lemma_canon_name_19();
        } else if j == 20 {
            lemma_canon_name_20();
        } else if j == 21 {
            lemma_canon_name_21();
        } else if j == 22 {
            lemma_canon_name_22();
        } else if j == 23 {
            lemma_canon_name_23();
        } else if j == 24 {
            lemma_canon_name_24();
        } else if j == 25 {
            lemma_canon_name_25();
        } else if j == 26 {
            lemma_canon_name_26();
        } else if j == 27 {
            lemma_canon_name_27();
        } else if j == 28 {
            lemma_canon_name_28();
        } else if j == 29 {
            lemma_canon_name_29();
        } else if j == 30 {
            lemma_canon_name_30();
        } else if j == 31 {
            lemma_canon_name_31();
        } else if j == 32 {
            lemma_canon_name_32();
        } else if j == 33 {
            lemma_canon_name_33();
        } else if j == 34 {
            lemma_canon_name_34();
        } else if j == 35 {
            lemma_canon_name_35();
        } else if j == 36 {
            lemma_canon_name_36();
        } else if j == 37 {
            lemma_canon_name_37();
        } else if j == 38 {
            lemma_canon_name_38();
        } else if j == 39 {
            lemma_canon_name_39();
        } else if j == 40 {
            lemma_canon_name_40();
        } else if j == 41 {
            lemma_canon_name_41();
        } else if j == 42 {
            lemma_canon_name_42();
        } else if j == 43 {
            lemma_canon_name_43();
        } else if j == 44 {
            lemma_canon_name_44();
        } else if j == 45 {
            lemma_canon_name_45();
        } else if j == 46 {
            lemma_canon_name_46();
        } else if j == 47 {
            lemma_canon_name_47();
        } else if j == 48 {
            lemma_canon_name_48();
        } else if j == 49 {
            lemma_canon_name_49();
        } else if j == 50 {
            lemma_canon_name_50();
        } else if j == 51 {
            lemma_canon_name_51();
        } else if j == 52 {
            lemma_canon_name_52();
        } else if j == 53 {
            lemma_canon_name_53();
        } else if j == 54 {
            lemma_canon_name_54();
        } else if j == 55 {
            lemma_canon_name_55();
        } else if j == 56 {
            lemma_canon_name_56();
        } else if j == 57 {
            lemma_canon_name_57();
        } else if j == 58 {
            lemma_canon_name_58();
        } else if j == 59 {
            lemma_canon_name_59();
        } else if j == 60 {
            lemma_canon_name_60();
        } else if j == 61 {
            lemma_canon_name_61();
        } else if j == 62 {
            lemma_canon_name_62();
        } else if j == 63 {
            lemma_canon_name_63();
        } else if j == 64 {
            lemma_canon_name_64();
        } else if j == 65 {
            lemma_canon_name_65();
        }
    }
}

proof fn lemma_canon_name_new_1()
    ensures
        forall|j: int| 0 <= j < 1 ==> #[trigger] canon_name(j) != canon_name(1),
{
    assert forall|j: int| 0 <= j < 1 implies #[trigger] canon_name(j) != canon_name(1) by {
        if j == 0 {
            assert(canon_name(0).len() != canon_name(1).len());
        }
    }
}

proof fn lemma_canon_name_new_2()
    ensures
        forall|j: int| 0 <= j < 2 ==> #[trigger] canon_name(j) != canon_name(2),
{
    assert forall|j: int| 0 <= j < 2 implies #[trigger] canon_name(j) != canon_name(2) by {
        if j == 0 {
            assert(canon_name(0).len() != canon_name(2).len());
        } else if j == 1 {
            assert(canon_name(1).len() != canon_name(2).len());
        }
    }
}

proof fn lemma_canon_name_new_3()
    ensures
        forall|j: int| 0 <= j < 3 ==> #[trigger] canon_name(j) != canon_name(3),
{
    assert forall|j: int| 0 <= j < 3 implies #[trigger] canon_name(j) != canon_name(3) by {
        if j == 0 {
            assert(canon_name(0)[0] != canon_name(3)[0]);
        } else if j == 1 {
            assert(canon_name(1).len() != canon_name(3).len());
        } else if j == 2 {
            assert(canon_name(2).len() != canon_name(3).len());
        }
    }
}

proof fn lemma_canon_name_new_4()
    ensures
        forall|j: int| 0 <= j < 4 ==> #[trigger] canon_name(j) != canon_name(4),
{
    assert forall|j: int| 0 <= j < 4 implies #[trigger] canon_name(j) != canon_name(4) by {
        if j == 0 {
            assert(canon_name(0).len() != canon_name(4).len());
        } else if j == 1 {
            assert(canon_name(1).len() != canon_name(4).len());
        } else if j == 2 {
            assert(canon_name(2).len() != canon_name(4).len());
        } else if j == 3 {
            assert(canon_name(3).len() != canon_name(4).len());
        }
    }
}

proof fn lemma_canon_name_new_5()
    ensures
        forall|j: int| 0 <= j < 5 ==> #[trigger] canon_name(j) != canon_name(5),
{
    assert forall|j: int| 0 <= j < 5 implies #[trigger] canon_name(j) != canon_name(5) by {
        if j == 0 {
            assert(canon_name(0).len() != canon_name(5).len());
        } else if j == 1 {
            assert(canon_name(1)[0] != canon_name(5)[0]);
        } else if j == 2 {
            assert(canon_name(2).len() != canon_name(5).len());
        } else if j == 3 {
            assert(canon_name(3).len() != canon_name(5).len());
        } else if j == 4 {
            assert(canon_name(4).len() != canon_name(5).len());
        }
    }
}

proof fn lemma_canon_name_new_6()
    ensures
        forall|j: int| 0 <= j < 6 ==> #[trigger] canon_name(j) != canon_name(6),
{
    assert forall|j: int| 0 <= j < 6 implies #[trigger] canon_name(j) != canon_name(6) by {
        if j == 0 {
            assert(canon_name(0).len() != canon_name(6).len());
        } else if j == 1 {
            assert(canon_name(1)[0] != canon_name(6)[0]);
        } else if j == 2 {
            assert(canon_name(2).len() != canon_name(6).len());
        } else if j == 3 {
            assert(canon_name(3).len() != canon_name(6).len());
        } else if j == 4 {
            assert(canon_name(4).len() != canon_name(6).len());
        } else if j == 5 {
            assert(canon_name(5)[1] != canon_name(6)[1]);
        }
    }
}

proof fn lemma_canon_name_new_7()
    ensures
        forall|j: int| 0 <= j < 7 ==> #[trigger] canon_name(j) != canon_name(7),
{
    assert forall|j: int| 0 <= j < 7 implies #[trigger] canon_name(j) != canon_name(7) by {
        if j == 0 {
            assert(canon_name(0).len() != canon_name(7).len());
        } else if j == 1 {
            assert(canon_name(1).len() != canon_name(7).len());
        } else if j == 2 {
            assert(canon_name(2).len() != canon_name(7).len());
        } else if j == 3 {
            assert(canon_name(3).len() != canon_name(7).len());
        } else if j == 4 {
            assert(canon_name(4).len() != canon_name(7).len());
        } else if j == 5 {
            assert(canon_name(5).len() != canon_name(7).len());
        } else if j == 6 {
            assert(canon_name(6).len() != canon_name(7).len());
        }
    }
}

proof fn lemma_canon_name_new_8()
    ensures
        forall|j: int| 0 <= j < 8 ==> #[trigger] canon_name(j) != canon_name(8),
{
    assert forall|j: int| 0 <= j < 8 implies #[trigger] canon_name(j) != canon_name(8) by {
        if j == 0 {
            assert(canon_name(0)[0] != canon_name(8)[0]);
        } else if j == 1 {
            assert(canon_name(1).len() != canon_name(8).len());
        } else if j == 2 {
            assert(canon_name(2).len() != canon_name(8).len());
        } else if j == 3 {
            assert(canon_name(3)[0] != canon_name(8)[0]);
        } else if j == 4 {
            assert(canon_name(4).len() != canon_name(8).len());
        } else if j == 5 {
            assert(canon_name(5).len() != canon_name(8).len());
        } else if j == 6 {
            assert(canon_name(6).len() != canon_name(8).len());
        } else if j == 7 {
            assert(canon_name(7).len() != canon_name(8).len());
        }
    }
}

proof fn lemma_canon_name_new_9()
    ensures
        forall|j: int| 0 <= j < 9 ==> #[trigger] canon_name(j) != canon_name(9),
{
    assert forall|j: int| 0 <= j < 9 implies #[trigger] canon_name(j) != canon_name(9) by {
        if j == 0 {
            assert(canon_name(0)[0] != canon_name(9)[0]);
        } else if j == 1 {
            assert(canon_name(1).len() != canon_name(9).len());
        } else if j == 2 {
            assert(canon_name(2).len() != canon_name(9).len());
        } else if j == 3 {
            assert(canon_name(3)[0] != canon_name(9)[0]);
        } else if j == 4 {
            assert(canon_name(4).len() != canon_name(9).len());
        } else if j == 5 {
            assert(canon_name(5).len() != canon_name(9).len());
        } else if j == 6 {
            assert(canon_name(6).len() != canon_name(9).len());
        } else if j == 7 {
            assert(canon_name(7).len() != canon_name(9).len());
        } else if j == 8 {
            assert(canon_name(8)[0] != canon_name(9)[0]);
        }
    }
}

proof fn lemma_canon_name_new_10()
    ensures
        forall|j: int| 0 <= j < 10 ==> #[trigger] canon_name(j) != canon_name(10),
{
    assert forall|j: int| 0 <= j < 10 implies #[trigger] canon_name(j) != canon_name(10) by {
        if j == 0 {
            assert(canon_name(0).len() != canon_name(10).len());
        } else if j == 1 {
            assert(canon_name(1)[0] != canon_name(10)[0]);
        } else if j == 2 {
            assert(canon_name(2).len() != canon_name(10).len());
        } else if j == 3 {
            assert(canon_name(3).len() != canon_name(10).len());
        } else if j == 4 {
            assert(canon_name(4).len() != canon_name(10).len());
        } else if j == 5 {
            assert(canon_name(5)[0] != canon_name(10)[0]);
        } else if j == 6 {
            assert(canon_name(6)[0] != canon_name(10)[0]);
        } else if j == 7 {
            assert(canon_name(7).len() != canon_name(10).len());
        } else if j == 8 {
            assert(canon_name(8).len() != canon_name(10).len());
        } else if j == 9 {
            assert(canon_name(9).len() != canon_name(10).len());
        }
    }
}

proof fn lemma_canon_name_new_11()
    ensures
        forall|j: int| 0 <= j < 11 ==> #[trigger] canon_name(j) != canon_name(11),
{
    assert forall|j: int| 0 <= j < 11 implies #[trigger] canon_name(j) != canon_name(11) by {
        if j == 0 {
            assert(canon_name(0).len() != canon_name(11).len());
        } else if j == 1 {
            assert(canon_name(1)[0] != canon_name(11)[0]);
        } else if j == 2 {
            assert(canon_name(2).len() != canon_name(11).len());
        } else if j == 3 {
            assert(canon_name(3).len() != canon_name(11).len());
        } else if j == 4 {
            assert(canon_name(4).len() != canon_name(11).len());
        } else if j == 5 {
            assert(canon_name(5)[0] != canon_name(11)[0]);
        } else if j == 6 {
            assert(canon_name(6)[0] != canon_name(11)[0]);
        } else if j == 7 {
            assert(canon_name(7).len() != canon_name(11).len());
        } else if j == 8 {
            assert(canon_name(8).len() != canon_name(11).len());
        } else if j == 9 {
            assert(canon_name(9).len() != canon_name(11).len());
        } else if j == 10 {
            assert(canon_name(10)[0] != canon_name(11)[0]);
        }
    }
}

proof fn lemma_canon_name_new_12()
    ensures
        forall|j: int| 0 <= j < 12 ==> #[trigger] canon_name(j) != canon_name(12),
{
    assert forall|j: int| 0 <= j < 12 implies #[trigger] canon_name(j) != canon_name(12) by {
        if j == 0 {
            assert(canon_name(0).len() != canon_name(12).len());
        } else if j == 1 {
            assert(canon_name(1).len() != canon_name(12).len());
        } else if j == 2 {
            assert(canon_name(2).len() != canon_name(12).len());
        } else if j == 3 {
            assert(canon_name(3).len() != canon_name(12).len());
        } else if j == 4 {
            assert(canon_name(4)[0] != canon_name(12)[0]);
        } else if j == 5 {
            assert(canon_name(5).len() != canon_name(12).len());
        } else if j == 6 {
            assert(canon_name(6).len() != canon_name(12).len());
        } else if j == 7 {
            assert(canon_name(7).len() != canon_name(12).len());
        } else if j == 8 {
            assert(canon_name(8).len() != canon_name(12).len());
        } else if j == 9 {
            assert(canon_name(9).len() != canon_name(12).len());
        } else if j == 10 {
            assert(canon_name(10).len() != canon_name(12).len());
        } else if j == 11 {
            assert(canon_name(11).len() != canon_name(12).len());
        }
    }
}

proof fn lemma_canon_name_new_13()
    ensures
        forall|j: int| 0 <= j < 13 ==> #[trigger] canon_name(j) != canon_name(13),
{
    assert forall|j: int| 0 <= j < 13 implies #[trigger] canon_name(j) != canon_name(13) by {
        if j == 0 {
            assert(canon_name(0).len() != canon_name(13).len());
        } else if j == 1 {
            assert(canon_name(1).len() != canon_name(13).len());
        } else if j == 2 {
            assert(canon_name(2).len() != canon_name(13).len());
        } else if j == 3 {
            assert(canon_name(3).len() != canon_name(13).len());
        } else if j == 4 {
            assert(canon_name(4)[0] != canon_name(13)[0]);
        } else if j == 5 {
            assert(canon_name(5).len() != canon_name(13).len());
        } else if j == 6 {
            assert(canon_name(6).len() != canon_name(13).len());
        } else if j == 7 {
            assert(canon_name(7).len() != canon_name(13).len());
        } else if j == 8 {
            assert(canon_name(8).len() != canon_name(13).len());
        } else if j == 9 {
            assert(canon_name(9).len() != canon_name(13).len());
        } else if j == 10 {
            assert(canon_name(10).len() != canon_name(13).len());
        } else if j == 11 {
            assert(canon_name(11).len() != canon_name(13).len());
        } else if j == 12 {
            assert(canon_name(12)[0] != canon_name(13)[0]);
        }
    }
}

proof fn lemma_canon_name_new_14()
    ensures
        forall|j: int| 0 <= j < 14 ==> #[trigger] canon_name(j) != canon_name(14),
{
    assert forall|j: int| 0 <= j < 14 implies #[trigger] canon_name(j) != canon_name(14) by {
        if j == 0 {
            assert(canon_name(0).len() != canon_name(14).len());
        } else if j == 1 {
            assert(canon_name(1).len() != canon_name(14).len());
        } else if j == 2 {
            assert(canon_name(2).len() != canon_name(14).len());
        } else if j == 3 {
            assert(canon_name(3).len() != canon_name(14).len());
        } else if j == 4 {
            assert(canon_name(4).len() != canon_name(14).len());
        } else if j == 5 {
            assert(canon_name(5).len() != canon_name(14).len());
        } else if j == 6 {
            assert(canon_name(6).len() != canon_name(14).len());
        } else if j == 7 {
            assert(canon_name(7)[0] != canon_name(14)[0]);
        } else if j == 8 {
            assert(canon_name(8).len() != canon_name(14).len());
        } else if j == 9 {
            assert(canon_name(9).len() != canon_name(14).len());
        } else if j == 10 {
            assert(canon_name(10).len() != canon_name(14).len());
        } else if j == 11 {
            assert(canon_name(11).len() != canon_name(14).len());
        } else if j == 12 {
            assert(canon_name(12).len() != canon_name(14).len());
        } else if j == 13 {
            assert(canon_name(13).len() != canon_name(14).len());
        }
    }
}

proof fn lemma_canon_name_new_15()
    ensures
        forall|j: int| 0 <= j < 15 ==> #[trigger] canon_name(j) != canon_name(15),
{
    assert forall|j: int| 0 <= j < 15 implies #[trigger] canon_name(j) != canon_name(15) by {
        if j == 0 {
            assert(canon_name(0).len() != canon_name(15).len());
        } else if j == 1 {
            assert(canon_name(1).len() != canon_name(15).len());
        } else if j == 2 {
            assert(canon_name(2).len() != canon_name(15).len());
        } else if j == 3 {
            assert(canon_name(3).len() != canon_name(15).len());
        } else if j == 4 {
            assert(canon_name(4).len() != canon_name(15).len());
        } else if j == 5 {
            assert(canon_name(5).len() != canon_name(15).len());
        } else if j == 6 {
            assert(canon_name(6).len() != canon_name(15).len());
        } else if j == 7 {
            assert(canon_name(7).len() != canon_name(15).len());
        } else if j == 8 {
            assert(canon_name(8).len() != canon_name(15).len());
        } else if j == 9 {
            assert(canon_name(9).len() != canon_name(15).len());
        } else if j == 10 {
            assert(canon_name(10).len() != canon_name(15).len());
        } else if j == 11 {
            assert(canon_name(11).len() != canon_name(15).len());
        } else if j == 12 {
            assert(canon_name(12).len() != canon_name(15).len());
        } else if j == 13 {
            assert(canon_name(13).len() != canon_name(15).len());
        } else if j == 14 {
            assert(canon_name(14).len() != canon_name(15).len());
        }
    }
}

proof fn lemma_canon_name_new_16()
    ensures
        forall|j: int| 0 <= j < 16 ==> #[trigger] canon_name(j) != canon_name(16),
{
    assert forall|j: int| 0 <= j < 16 implies #[trigger] canon_name(j) != canon_name(16) by {
        if j == 0 {
            assert(canon_name(0).len() != canon_name(16).len());
        } else if j == 1 {
            assert(canon_name(1)[1] != canon_name(16)[1]);
        } else if j == 2 {
            assert(canon_name(2).len() != canon_name(16).len());
        } else if j == 3 {
            assert(canon_name(3).len() != canon_name(16).len());
        } else if j == 4 {
            assert(canon_name(4).len() != canon_name(16).len());
        } else if j == 5 {
            assert(canon_name(5)[0] != canon_name(16)[0]);
        } else if j == 6 {
            assert(canon_name(6)[0] != canon_name(16)[0]);
        } else if j == 7 {
            assert(canon_name(7).len() != canon_name(16).len());
        } else if j == 8 {
            assert(canon_name(8).len() != canon_name(16).len());
        } else if j == 9 {
            assert(canon_name(9).len() != canon_name(16).len());
        } else if j == 10 {
            assert(canon_name(10)[0] != canon_name(16)[0]);
        } else if j == 11 {
            assert(canon_name(11)[0] != canon_name(16)[0]);
        } else if j == 12 {
            assert(canon_name(12).len() != canon_name(16).len());
        } else if j == 13 {
            assert(canon_name(13).len() != canon_name(16).len());
        } else if j == 14 {
            assert(canon_name(14).len() != canon_name(16).len());
        } else if j == 15 {
            assert(canon_name(15).len() != canon_name(16).len());
        }
    }
}

proof fn lemma_canon_name_new_17()
    ensures
        forall|j: int| 0 <= j < 17 ==> #[trigger] canon_name(j) != canon_name(17),
{
    assert forall|j: int| 0 <= j < 17 implies #[trigger] canon_name(j) != canon_name(17) by {
        if j == 0 {
            assert(canon_name(0).len() != canon_name(17).len());
        } else if j == 1 {
            assert(canon_name(1).len() != canon_name(17).len());
        } else if j == 2 {
            assert(canon_name(2).len() != canon_name(17).len());
        } else if j == 3 {
            assert(canon_name(3).len() != canon_name(17).len());
        } else if j == 4 {
            assert(canon_name(4).len() != canon_name(17).len());
        } else if j == 5 {
            assert(canon_name(5).len() != canon_name(17).len());
        } else if j == 6 {
            assert(canon_name(6).len() != canon_name(17).len());
        } else if j == 7 {
            assert(canon_name(7).len() != canon_name(17).len());
        } else if j == 8 {
            assert(canon_name(8).len() != canon_name(17).len());
        } else if j == 9 {
            assert(canon_name(9).len() != canon_name(17).len());
        } else if j == 10 {
            assert(canon_name(10).len() != canon_name(17).len());
        } else if j == 11 {
            assert(canon_name(11).len() != canon_name(17).len());
        } else if j == 12 {
            assert(canon_name(12).len() != canon_name(17).len());
        } else if j == 13 {
            assert(canon_name(13).len() != canon_name(17).len());
        } else if j == 14 {
            assert(canon_name(14).len() != canon_name(17).len());
        } else if j == 15 {
            assert(canon_name(15).len() != canon_name(17).len());
        } else if j == 16 {
            assert(canon_name(16).len() != canon_name(17).len());
        }
    }
}

proof fn lemma_canon_name_new_18()
    ensures
        forall|j: int| 0 <= j < 18 ==> #[trigger] canon_name(j) != canon_name(18),
{
    assert forall|j: int| 0 <= j < 18 implies #[trigger] canon_name(j) != canon_name(18) by {
        if j == 0 {
            assert(canon_name(0).len() != canon_name(18).len());
        } else if j == 1 {
            assert(canon_name(1)[0] != canon_name(18)[0]);
        } else if j == 2 {
            assert(canon_name(2).len() != canon_name(18).len());
        } else if j == 3 {
            assert(canon_name(3).len() != canon_name(18).len());
        } else if j == 4 {
            assert(canon_name(4).len() != canon_name(18).len());
        } else if j == 5 {
            assert(canon_name(5)[0] != canon_name(18)[0]);
        } else if j == 6 {
            assert(canon_name(6)[0] != canon_name(18)[0]);
        } else if j == 7 {
            assert(canon_name(7).len() != canon_name(18).len());
        } else if j == 8 {
            assert(canon_name(8).len() != canon_name(18).len());
        } else if j == 9 {
            assert(canon_name(9).len() != canon_name(18).len());
        } else if j == 10 {
            assert(canon_name(10)[0] != canon_name(18)[0]);
        } else if j == 11 {
            assert(canon_name(11)[0] != canon_name(18)[0]);
        } else if j == 12 {
            assert(canon_name(12).len() != canon_name(18).len());
        } else if j == 13 {
            assert(canon_name(13).len() != canon_name(18).len());
        } else if j == 14 {
            assert(canon_name(14).len() != canon_name(18).len());
        } else if j == 15 {
            assert(canon_name(15).len() != canon_name(18).len());
        } else if j == 16 {
            assert(canon_name(16)[0] != canon_name(18)[0]);
        } else if j == 17 {
            assert(canon_name(17).len() != canon_name(18).len());
        }
    }
}

proof fn lemma_canon_name_new_19()
    ensures
        forall|j: int| 0 <= j < 19 ==> #[trigger] canon_name(j) != canon_name(19),
{
    assert forall|j: int| 0 <= j < 19 implies #[trigger] canon_name(j) != canon_name(19) by {
        if j == 0 {
            assert(canon_name(0).len() != canon_name(19).len());
        } else if j == 1 {
            assert(canon_name(1).len() != canon_name(19).len());
        } else if j == 2 {
            assert(canon_name(2).len() != canon_name(19).len());
        } else if j == 3 {
            assert(canon_name(3).len() != canon_name(19).len());
        } else if j == 4 {
            assert(canon_name(4).len() != canon_name(19).len());
        } else if j == 5 {
            assert(canon_name(5).len() != canon_name(19).len());
        } else if j == 6 {
            assert(canon_name(6).len() != canon_name(19).len());
        } else if j == 7 {
            assert(canon_name(7).len() != canon_name(19).len());
        } else if j == 8 {
            assert(canon_name(8).len() != canon_name(19).len());
        } else if j == 9 {
            assert(canon_name(9).len() != canon_name(19).len());
        } else if j == 10 {
            assert(canon_name(10).len() != canon_name(19).len());
        } else if j == 11 {
            assert(canon_name(11).len() != canon_name(19).len());
        } else if j == 12 {
            assert(canon_name(12).len() != canon_name(19).len());
        } else if j == 13 {
            assert(canon_name(13).len() != canon_name(19).len());
        } else if j == 14 {
            assert(canon_name(14).len() != canon_name(19).len());
        } else if j == 15 {
            assert(canon_name(15)[0] != canon_name(19)[0]);
        } else if j == 16 {
            assert(canon_name(16).len() != canon_name(19).len());
        } else if j == 17 {
            assert(canon_name(17).len() != canon_name(19).len());
        } else if j == 18 {
            assert(canon_name(18).len() != canon_name(19).len());
        }
    }
}

proof fn lemma_canon_name_new_20()
    ensures
        forall|j: int| 0 <= j < 20 ==> #[trigger] canon_name(j) != canon_name(20),
{
    assert forall|j: int| 0 <= j < 20 implies #[trigger] canon_name(j) != canon_name(20) by {
        if j == 0 {
            assert(canon_name(0).len() != canon_name(20).len());
        } else if j == 1 {
            assert(canon_name(1).len() != canon_name(20).len());
        } else if j == 2 {
            assert(canon_name(2).len() != canon_name(20).len());
        } else if j == 3 {
            assert(canon_name(3).len() != canon_name(20).len());
        } else if j == 4 {
            assert(canon_name(4).len() != canon_name(20).len());
        } else if j == 5 {
            assert(canon_name(5).len() != canon_name(20).len());
        } else if j == 6 {
            assert(canon_name(6).len() != canon_name(20).len());
        } else if j == 7 {
            assert(canon_name(7).len() != canon_name(20).len());
        } else if j == 8 {
            assert(canon_name(8).len() != canon_name(20).len());
        } else if j == 9 {
            assert(canon_name(9).len() != canon_name(20).len());
        } else if j == 10 {
            assert(canon_name(10).len() != canon_name(20).len());
        } else if j == 11 {
            assert(canon_name(11).len() != canon_name(20).len());
        } else if j == 12 {
            assert(canon_name(12).len() != canon_name(20).len());
        } else if j == 13 {
            assert(canon_name(13).len() != canon_name(20).len());
        } else if j == 14 {
            assert(canon_name(14).len() != canon_name(20).len());
        } else if j == 15 {
            assert(canon_name(15).len() != canon_name(20).len());
        } else if j == 16 {
            assert(canon_name(16).len() != canon_name(20).len());
        } else if j == 17 {
            assert(canon_name(17).len() != canon_name(20).len());
        } else if j == 18 {
            assert(canon_name(18).len() != canon_name(20).len());
        } else if j == 19 {
            assert(canon_name(19).len() != canon_name(20).len());
        }
    }
}

proof fn lemma_canon_name_new_21()
    ensures
        forall|j: int| 0 <= j < 21 ==> #[trigger] canon_name(j) != canon_name(21),
{
    assert forall|j: int| 0 <= j < 21 implies #[trigger] canon_name(j) != canon_name(21) by {
        if j == 0 {
            assert(canon_name(0).len() != canon_name(21).len());
        } else if j == 1 {
            assert(canon_name(1).len() != canon_name(21).len());
        } else if j == 2 {
            assert(canon_name(2).len() != canon_name(21).len());
        } else if j == 3 {
            assert(canon_name(3).len() != canon_name(21).len());
        } else if j == 4 {
            assert(canon_name(4).len() != canon_name(21).len());
        } else if j == 5 {
            assert(canon_name(5).len() != canon_name(21).len());
        } else if j == 6 {
            assert(canon_name(6).len() != canon_name(21).len());
        } else if j == 7 {
            assert(canon_name(7).len() != canon_name(21).len());
        } else if j == 8 {
            assert(canon_name(8).len() != canon_name(21).len());
        } else if j == 9 {
            assert(canon_name(9).len() != canon_name(21).len());
        } else if j == 10 {
            assert(canon_name(10).len() != canon_name(21).len());
        } else if j == 11 {
            assert(canon_name(11).len() != canon_name(21).len());
        } else if j == 12 {
            assert(canon_name(12).len() != canon_name(21).len());
        } else if j == 13 {
            assert(canon_name(13).len() != canon_name(21).len());
        } else if j == 14 {
            assert(canon_name(14).len() != canon_name(21).len());
        } else if j == 15 {
            assert(canon_name(15).len() != canon_name(21).len());
        } else if j == 16 {
            assert(canon_name(16).len() != canon_name(21).len());
        } else if j == 17 {
            assert(canon_name(17).len() != canon_name(21).len());
        } else if j == 18 {
            assert(canon_name(18).len() != canon_name(21).len());
        } else if j == 19 {
            assert(canon_name(19).len() != canon_name(21).len());
        } else if j == 20 {
            assert(canon_name(20).len() != canon_name(21).len());
        }
    }
}

proof fn lemma_canon_name_new_22()
    ensures
        forall|j: int| 0 <= j < 22 ==> #[trigger] canon_name(j) != canon_name(22),
{
    assert forall|j: int| 0 <= j < 22 implies #[trigger] canon_name(j) != canon_name(22) by {
        if j == 0 {
            assert(canon_name(0).len() != canon_name(22).len());
        } else if j == 1 {
            assert(canon_name(1)[0] != canon_name(22)[0]);
        } else if j == 2 {
            assert(canon_name(2).len() != canon_name(22).len());
        } else if j == 3 {
            assert(canon_name(3).len() != canon_name(22).len());
        } else if j == 4 {
            assert(canon_name(4).len() != canon_name(22).len());
        } else if j == 5 {
            assert(canon_name(5)[0] != canon_name(22)[0]);
        } else if j == 6 {
            assert(canon_name(6)[0] != canon_name(22)[0]);
        } else if j == 7 {
            assert(canon_name(7).len() != canon_name(22).len());
        } else if j == 8 {
            assert(canon_name(8).len() != canon_name(22).len());
        } else if j == 9 {
            assert(canon_name(9).len() != canon_name(22).len());
        } else if j == 10 {
            assert(canon_name(10)[0] != canon_name(22)[0]);
        } else if j == 11 {
            assert(canon_name(11)[0] != canon_name(22)[0]);
        } else if j == 12 {
            assert(canon_name(12).len() != canon_name(22).len());
        } else if j == 13 {
            assert(canon_name(13).len() != canon_name(22).len());
        } else if j == 14 {
            assert(canon_name(14).len() != canon_name(22).len());
        } else if j == 15 {
            assert(canon_name(15).len() != canon_name(22).len());
        } else if j == 16 {
            assert(canon_name(16)[0] != canon_name(22)[0]);
        } else if j == 17 {
            assert(canon_name(17).len() != canon_name(22).len());
        } else if j == 18 {
            assert(canon_name(18)[0] != canon_name(22)[0]);
        } else if j == 19 {
            assert(canon_name(19).len() != canon_name(22).len());
        } else if j == 20 {
            assert(canon_name(20).len() != canon_name(22).len());
        } else if j == 21 {
            assert(canon_name(21).len() != canon_name(22).len());
        }
    }
}

proof fn lemma_canon_name_new_23()
    ensures
        forall|j: int| 0 <= j < 23 ==> #[trigger] canon_name(j) != canon_name(23),
{
    assert forall|j: int| 0 <= j < 23 implies #[trigger] canon_name(j) != canon_name(23) by {
        if j == 0 {
            assert(canon_name(0).len() != canon_name(23).len());
        } else if j == 1 {
            assert(canon_name(1).len() != canon_name(23).len());
        } else if j == 2 {
            assert(canon_name(2).len() != canon_name(23).len());
        } else if j == 3 {
            assert(canon_name(3).len() != canon_name(23).len());
        } else if j == 4 {
            assert(canon_name(4).len() != canon_name(23).len());
        } else if j == 5 {
            assert(canon_name(5).len() != canon_name(23).len());
        } else if j == 6 {
            assert(canon_name(6).len() != canon_name(23).len());
        } else if j == 7 {
            assert(canon_name(7).len() != canon_name(23).len());
        } else if j == 8 {
            assert(canon_name(8).len() != canon_name(23).len());
        } else if j == 9 {
            assert(canon_name(9).len() != canon_name(23).len());
        } else if j == 10 {
            assert(canon_name(10).len() != canon_name(23).len());
        } else if j == 11 {
            assert(canon_name(11).len() != canon_name(23).len());
        } else if j == 12 {
            assert(canon_name(12).len() != canon_name(23).len());
        } else if j == 13 {
            assert(canon_name(13).len() != canon_name(23).len());
        } else if j == 14 {
            assert(canon_name(14).len() != canon_name(23).len());
        } else if j == 15 {
            assert(canon_name(15)[0] != canon_name(23)[0]);
        } else if j == 16 {
            assert(canon_name(16).len() != canon_name(23).len());
        } else if j == 17 {
            assert(canon_name(17).len() != canon_name(23).len());
        } else if j == 18 {
            assert(canon_name(18).len() != canon_name(23).len());
        } else if j == 19 {
            assert(canon_name(19)[0] != canon_name(23)[0]);
        } else if j == 20 {
            assert(canon_name(20).len() != canon_name(23).len());
        } else if j == 21 {
            assert(canon_name(21).len() != canon_name(23).len());
        } else if j == 22 {
            assert(canon_name(22).len() != canon_name(23).len());
        }
    }
}

proof fn lemma_canon_name_new_24()
    ensures
        forall|j: int| 0 <= j < 24 ==> #[trigger] canon_name(j) != canon_name(24),
{
    assert forall|j: int| 0 <= j < 24 implies #[trigger] canon_name(j) != canon_name(24) by {
        if j == 0 {
            assert(canon_name(0).len() != canon_name(24).len());
        } else if j == 1 {
            assert(canon_name(1).len() != canon_name(24).len());
        } else if j == 2 {
            assert(canon_name(2).len() != canon_name(24).len());
        } else if j == 3 {
            assert(canon_name(3).len() != canon_name(24).len());
        } else if j == 4 {
            assert(canon_name(4).len() != canon_name(24).len());
        } else if j == 5 {
            assert(canon_name(5).len() != canon_name(24).len());
        } else if j == 6 {
            assert(canon_name(6).len() != canon_name(24).len());
        } else if j == 7 {
            assert(canon_name(7).len() != canon_name(24).len());
        } else if j == 8 {
            assert(canon_name(8).len() != canon_name(24).len());
        } else if j == 9 {
            assert(canon_name(9).len() != canon_name(24).len());
        } else if j == 10 {
            assert(canon_name(10).len() != canon_name(24).len());
        } else if j == 11 {
            assert(canon_name(11).len() != canon_name(24).len());
        } else if j == 12 {
            assert(canon_name(12).len() != canon_name(24).len());
        } else if j == 13 {
            assert(canon_name(13).len() != canon_name(24).len());
        } else if j == 14 {
            assert(canon_name(14).len() != canon_name(24).len());
        } else if j == 15 {
            assert(canon_name(15).len() != canon_name(24).len());
        } else if j == 16 {
            assert(canon_name(16).len() != canon_name(24).len());
        } else if j == 17 {
            assert(canon_name(17).len() != canon_name(24).len());
        } else if j == 18 {
            assert(canon_name(18).len() != canon_name(24).len());
        } else if j == 19 {
            assert(canon_name(19).len() != canon_name(24).len());
        } else if j == 20 {
            assert(canon_name(20)[0] != canon_name(24)[0]);
        } else if j == 21 {
            assert(canon_name(21).len() != canon_name(24).len());
        } else if j == 22 {
            assert(canon_name(22).len() != canon_name(24).len());
        } else if j == 23 {
            assert(canon_name(23).len() != canon_name(24).len());
        }
    }
}

proof fn lemma_canon_name_new_25()
    ensures
        forall|j: int| 0 <= j < 25 ==> #[trigger] canon_name(j) != canon_name(25),
{
    assert forall|j: int| 0 <= j < 25 implies #[trigger] canon_name(j) != canon_name(25) by {
        if j == 0 {
            assert(canon_name(0)[0] != canon_name(25)[0]);
        } else if j == 1 {
            assert(canon_name(1).len() != canon_name(25).len());
        } else if j == 2 {
            assert(canon_name(2).len() != canon_name(25).len());
        } else if j == 3 {
            assert(canon_name(3)[0] != canon_name(25)[0]);
        } else if j == 4 {
            assert(canon_name(4).len() != canon_name(25).len());
        } else if j == 5 {
            assert(canon_name(5).len() != canon_name(25).len());
        } else if j == 6 {
            assert(canon_name(6).len() != canon_name(25).len());
        } else if j == 7 {
            assert(canon_name(7).len() != canon_name(25).len());
        } else if j == 8 {
            assert(canon_name(8)[0] != canon_name(25)[0]);
        } else if j == 9 {
            assert(canon_name(9)[0] != canon_name(25)[0]);
        } else if j == 10 {
            assert(canon_name(10).len() != canon_name(25).len());
        } else if j == 11 {
            assert(canon_name(11).len() != canon_name(25).len());
        } else if j == 12 {
            assert(canon_name(12).len() != canon_name(25).len());
        } else if j == 13 {
            assert(canon_name(13).len() != canon_name(25).len());
        } else if j == 14 {
            assert(canon_name(14).len() != canon_name(25).len());
        } else if j == 15 {
            assert(canon_name(15).len() != canon_name(25).len());
        } else if j == 16 {
            assert(canon_name(16).len() != canon_name(25).len());
        } else if j == 17 {
            assert(canon_name(17).len() != canon_name(25).len());
        } else if j == 18 {
            assert(canon_name(18).len() != canon_name(25).len());
        } else if j == 19 {
            assert(canon_name(19).len() != canon_name(25).len());
        } else if j == 20 {
            assert(canon_name(20).len() != canon_name(25).len());
        } else if j == 21 {
            assert(canon_name(21).len() != canon_name(25).len());
        } else if j == 22 {
            assert(canon_name(22).len() != canon_name(25).len());
        } else if j == 23 {
            assert(canon_name(23).len() != canon_name(25).len());
        } else if j == 24 {
            assert(canon_name(24).len() != canon_name(25).len());
        }
    }
}

proof fn lemma_canon_name_new_26()
    ensures
        forall|j: int| 0 <= j < 26 ==> #[trigger] canon_name(j) != canon_name(26),
{
    assert forall|j: int| 0 <= j < 26 implies #[trigger] canon_name(j) != canon_name(26) by {
        if j == 0 {
            assert(canon_name(0).len() != canon_name(26).len());
        } else if j == 1 {
            assert(canon_name(1)[0] != canon_name(26)[0]);
        } else if j == 2 {
            assert(canon_name(2).len() != canon_name(26).len());
        } else if j == 3 {
            assert(canon_name(3).len() != canon_name(26).len());
        } else if j == 4 {
            assert(canon_name(4).len() != canon_name(26).len());
        } else if j == 5 {
            assert(canon_name(5)[0] != canon_name(26)[0]);
        } else if j == 6 {
            assert(canon_name(6)[0] != canon_name(26)[0]);
        } else if j == 7 {
            assert(canon_name(7).len() != canon_name(26).len());
        } else if j == 8 {
            assert(canon_name(8).len() != canon_name(26).len());
        } else if j == 9 {
            assert(canon_name(9).len() != canon_name(26).len());
        } else if j == 10 {
            assert(canon_name(10)[0] != canon_name(26)[0]);
        } else if j == 11 {
            assert(canon_name(11)[0] != canon_name(26)[0]);
        } else if j == 12 {
            assert(canon_name(12).len() != canon_name(26).len());
        } else if j == 13 {
            assert(canon_name(13).len() != canon_name(26).len());
        } else if j == 14 {
            assert(canon_name(14).len() != canon_name(26).len());
        } else if j == 15 {
            assert(canon_name(15).len() != canon_name(26).len());
        } else if j == 16 {
            assert(canon_name(16)[0] != canon_name(26)[0]);
        } else if j == 17 {
            assert(canon_name(17).len() != canon_name(26).len());
        } else if j == 18 {
            assert(canon_name(18)[0] != canon_name(26)[0]);
        } else if j == 19 {
            assert(canon_name(19).len() != canon_name(26).len());
        } else if j == 20 {
            assert(canon_name(20).len() != canon_name(26).len());
        } else if j == 21 {
            assert(canon_name(21).len() != canon_name(26).len());
        } else if j == 22 {
            assert(canon_name(22)[0] != canon_name(26)[0]);
        } else if j == 23 {
            assert(canon_name(23).len() != canon_name(26).len());
        } else if j == 24 {
            assert(canon_name(24).len() != canon_name(26).len());
        } else if j == 25 {
            assert(canon_name(25).len() != canon_name(26).len());
        }
    }
}

proof fn lemma_canon_name_new_27()
    ensures
        forall|j: int| 0 <= j < 27 ==> #[trigger] canon_name(j) != canon_name(27),
{
    assert forall|j: int| 0 <= j < 27 implies #[trigger] canon_name(j) != canon_name(27) by {
        if j == 0 {
            assert(canon_name(0).len() != canon_name(27).len());
        } else if j == 1 {
            assert(canon_name(1).len() != canon_name(27).len());
        } else if j == 2 {
            assert(canon_name(2).len() != canon_name(27).len());
        } else if j == 3 {
            assert(canon_name(3).len() != canon_name(27).len());
        } else if j == 4 {
            assert(canon_name(4).len() != canon_name(27).len());
        } else if j == 5 {
            assert(canon_name(5).len() != canon_name(27).len());
        } else if j == 6 {
            assert(canon_name(6).len() != canon_name(27).len());
        } else if j == 7 {
            assert(canon_name(7).len() != canon_name(27).len());
        } else if j == 8 {
            assert(canon_name(8).len() != canon_name(27).len());
        } else if j == 9 {
            assert(canon_name(9).len() != canon_name(27).len());
        } else if j == 10 {
            assert(canon_name(10).len() != canon_name(27).len());
        } else if j == 11 {
            assert(canon_name(11).len() != canon_name(27).len());
        } else if j == 12 {
            assert(canon_name(12).len() != canon_name(27).len());
        } else if j == 13 {
            assert(canon_name(13).len() != canon_name(27).len());
        } else if j == 14 {
            assert(canon_name(14).len() != canon_name(27).len());
        } else if j == 15 {
            assert(canon_name(15).len() != canon_name(27).len());
        } else if j == 16 {
            assert(canon_name(16).len() != canon_name(27).len());
        } else if j == 17 {
            assert(canon_name(17).len() != canon_name(27).len());
        } else if j == 18 {
            assert(canon_name(18).len() != canon_name(27).len());
        } else if j == 19 {
            assert(canon_name(19).len() != canon_name(27).len());
        } else if j == 20 {
            assert(canon_name(20).len() != canon_name(27).len());
        } else if j == 21 {
            assert(canon_name(21).len() != canon_name(27).len());
        } else if j == 22 {
            assert(canon_name(22).len() != canon_name(27).len());
        } else if j == 23 {
            assert(canon_name(23).len() != canon_name(27).len());
        } else if j == 24 {
            assert(canon_name(24).len() != canon_name(27).len());
        } else if j == 25 {
            assert(canon_name(25).len() != canon_name(27).len());
        } else if j == 26 {
            assert(canon_name(26).len() != canon_name(27).len());
        }
    }
}

proof fn lemma_canon_name_new_28()
    ensures
        forall|j: int| 0 <= j < 28 ==> #[trigger] canon_name(j) != canon_name(28),
{
    assert forall|j: int| 0 <= j < 28 implies #[trigger] canon_name(j) != canon_name(28) by {
        if j == 0 {
            assert(canon_name(0).len() != canon_name(28).len());
        } else if j == 1 {
            assert(canon_name(1).len() != canon_name(28).len());
        } else if j == 2 {
            assert(canon_name(2).len() != canon_name(28).len());
        } else if j == 3 {
            assert(canon_name(3).len() != canon_name(28).len());
        } else if j == 4 {
            assert(canon_name(4).len() != canon_name(28).len());
        } else if j == 5 {
            assert(canon_name(5).len() != canon_name(28).len());
        } else if j == 6 {
            assert(canon_name(6).len() != canon_name(28).len());
        } else if j == 7 {
            assert(canon_name(7)[0] != canon_name(28)[0]);
        } else if j == 8 {
            assert(canon_name(8).len() != canon_name(28).len());
        } else if j == 9 {
            assert(canon_name(9).len() != canon_name(28).len());
        } else if j == 10 {
            assert(canon_name(10).len() != canon_name(28).len());
        } else if j == 11 {
            assert(canon_name(11).len() != canon_name(28).len());
        } else if j == 12 {
            assert(canon_name(12).len() != canon_name(28).len());
        } else if j == 13 {
            assert(canon_name(13).len() != canon_name(28).len());
        } else if j == 14 {
            assert(canon_name(14)[0] != canon_name(28)[0]);
        } else if j == 15 {
            assert(canon_name(15).len() != canon_name(28).len());
        } else if j == 16 {
            assert(canon_name(16).len() != canon_name(28).len());
        } else if j == 17 {
            assert(canon_name(17).len() != canon_name(28).len());
        } else if j == 18 {
            assert(canon_name(18).len() != canon_name(28).len());
        } else if j == 19 {
            assert(canon_name(19).len() != canon_name(28).len());
        } else if j == 20 {
            assert(canon_name(20).len() != canon_name(28).len());
        } else if j == 21 {
            assert(canon_name(21).len() != canon_name(28).len());
        } else if j == 22 {
            assert(canon_name(22).len() != canon_name(28).len());
        } else if j == 23 {
            assert(canon_name(23).len() != canon_name(28).len());
        } else if j == 24 {
            assert(canon_name(24).len() != canon_name(28).len());
        } else if j == 25 {
            assert(canon_name(25).len() != canon_name(28).len());
        } else if j == 26 {
            assert(canon_name(26).len() != canon_name(28).len());
        } else if j == 27 {
            assert(canon_name(27).len() != canon_name(28).len());
        }
    }
}

proof fn lemma_canon_name_new_29()
    ensures
        forall|j: int| 0 <= j < 29 ==> #[trigger] canon_name(j) != canon_name(29),
{
    assert forall|j: int| 0 <= j < 29 implies #[trigger] canon_name(j) != canon_name(29) by {
        if j == 0 {
            assert(canon_name(0).len() != canon_name(29).len());
        } else if j == 1 {
            assert(canon_name(1).len() != canon_name(29).len());
        } else if j == 2 {
            assert(canon_name(2).len() != canon_name(29).len());
        } else if j == 3 {
            assert(canon_name(3).len() != canon_name(29).len());
        } else if j == 4 {
            assert(canon_name(4).len() != canon_name(29).len());
        } else if j == 5 {
            assert(canon_name(5).len() != canon_name(29).len());
        } else if j == 6 {
            assert(canon_name(6).len() != canon_name(29).len());
        } else if j == 7 {
            assert(canon_name(7)[0] != canon_name(29)[0]);
        } else if j == 8 {
            assert(canon_name(8).len() != canon_name(29).len());
        } else if j == 9 {
            assert(canon_name(9).len() != canon_name(29).len());
        } else if j == 10 {
            assert(canon_name(10).len() != canon_name(29).len());
        } else if j == 11 {
            assert(canon_name(11).len() != canon_name(29).len());
        } else if j == 12 {
            assert(canon_name(12).len() != canon_name(29).len());
        } else if j == 13 {
            assert(canon_name(13).len() != canon_name(29).len());
        } else if j == 14 {
            assert(canon_name(14)[0] != canon_name(29)[0]);
        } else if j == 15 {
            assert(canon_name(15).len() != canon_name(29).len());
        } else if j == 16 {
            assert(canon_name(16).len() != canon_name(29).len());
        } else if j == 17 {
            assert(canon_name(17).len() != canon_name(29).len());
        } else if j == 18 {
            assert(canon_name(18).len() != canon_name(29).len());
        } else if j == 19 {
            assert(canon_name(19).len() != canon_name(29).len());
        } else if j == 20 {
            assert(canon_name(20).len() != canon_name(29).len());
        } else if j == 21 {
            assert(canon_name(21).len() != canon_name(29).len());
        } else if j == 22 {
            assert(canon_name(22).len() != canon_name(29).len());
        } else if j == 23 {
            assert(canon_name(23).len() != canon_name(29).len());
        } else if j == 24 {
            assert(canon_name(24).len() != canon_name(29).len());
        } else if j == 25 {
            assert(canon_name(25).len() != canon_name(29).len());
        } else if j == 26 {
            assert(canon_name(26).len() != canon_name(29).len());
        } else if j == 27 {
            assert(canon_name(27).len() != canon_name(29).len());
        } else if j == 28 {
            assert(canon_name(28)[0] != canon_name(29)[0]);
        }
    }
}

proof fn lemma_canon_name_new_30()
    ensures
        forall|j: int| 0 <= j < 30 ==> #[trigger] canon_name(j) != canon_name(30),
{
    assert forall|j: int| 0 <= j < 30 implies #[trigger] canon_name(j) != canon_name(30) by {
        if j == 0 {
            assert(canon_name(0)[0] != canon_name(30)[0]);
        } else if j == 1 {
            assert(canon_name(1).len() != canon_name(30).len());
        } else if j == 2 {
            assert(canon_name(2).len() != canon_name(30).len());
        } else if j == 3 {
            assert(canon_name(3)[0] != canon_name(30)[0]);
        } else if j == 4 {
            assert(canon_name(4).len() != canon_name(30).len());
        } else if j == 5 {
            assert(canon_name(5).len() != canon_name(30).len());
        } else if j == 6 {
            assert(canon_name(6).len() != canon_name(30).len());
        } else if j == 7 {
            assert(canon_name(7).len() != canon_name(30).len());
        } else if j == 8 {
            assert(canon_name(8)[0] != canon_name(30)[0]);
        } else if j == 9 {
            assert(canon_name(9)[0] != canon_name(30)[0]);
        } else if j == 10 {
            assert(canon_name(10).len() != canon_name(30).len());
        } else if j == 11 {
            assert(canon_name(11).len() != canon_name(30).len());
        } else if j == 12 {
            assert(canon_name(12).len() != canon_name(30).len());
        } else if j == 13 {
            assert(canon_name(13).len() != canon_name(30).len());
        } else if j == 14 {
            assert(canon_name(14).len() != canon_name(30).len());
        } else if j == 15 {
            assert(canon_name(15).len() != canon_name(30).len());
        } else if j == 16 {
            assert(canon_name(16).len() != canon_name(30).len());
        } else if j == 17 {
            assert(canon_name(17).len() != canon_name(30).len());
        } else if j == 18 {
            assert(canon_name(18).len() != canon_name(30).len());
        } else if j == 19 {
            assert(canon_name(19).len() != canon_name(30).len());
        } else if j == 20 {
            assert(canon_name(20).len() != canon_name(30).len());
        } else if j == 21 {
            assert(canon_name(21).len() != canon_name(30).len());
        } else if j == 22 {
            assert(canon_name(22).len() != canon_name(30).len());
        } else if j == 23 {
            assert(canon_name(23).len() != canon_name(30).len());
        } else if j == 24 {
            assert(canon_name(24).len() != canon_name(30).len());
        } else if j == 25 {
            assert(canon_name(25)[0] != canon_name(30)[0]);
        } else if j == 26 {
            assert(canon_name(26).len() != canon_name(30).len());
        } else if j == 27 {
            assert(canon_name(27).len() != canon_name(30).len());
        } else if j == 28 {
            assert(canon_name(28).len() != canon_name(30).len());
        } else if j == 29 {
            assert(canon_name(29).len() != canon_name(30).len());
        }
    }
}

proof fn lemma_canon_name_new_31()
    ensures
        forall|j: int| 0 <= j < 31 ==> #[trigger] canon_name(j) != canon_name(31),
{
    assert forall|j: int| 0 <= j < 31 implies #[trigger] canon_name(j) != canon_name(31) by {
        if j == 0 {
            assert(canon_name(0).len() != canon_name(31).len());
        } else if j == 1 {
            assert(canon_name(1).len() != canon_name(31).len());
        } else if j == 2 {
            assert(canon_name(2).len() != canon_name(31).len());
        } else if j == 3 {
            assert(canon_name(3).len() != canon_name(31).len());
        } else if j == 4 {
            assert(canon_name(4).len() != canon_name(31).len());
        } else if j == 5 {
            assert(canon_name(5).len() != canon_name(31).len());
        } else if j == 6 {
            assert(canon_name(6).len() != canon_name(31).len());
        } else if j == 7 {
            assert(canon_name(7).len() != canon_name(31).len());
        } else if j == 8 {
            assert(canon_name(8).len() != canon_name(31).len());
        } else if j == 9 {
            assert(canon_name(9).len() != canon_name(31).len());
        } else if j == 10 {
            assert(canon_name(10).len() != canon_name(31).len());
        } else if j == 11 {
            assert(canon_name(11).len() != canon_name(31).len());
        } else if j == 12 {
            assert(canon_name(12).len() != canon_name(31).len());
        } else if j == 13 {
            assert(canon_name(13).len() != canon_name(31).len());
        } else if j == 14 {
            assert(canon_name(14).len() != canon_name(31).len());
        } else if j == 15 {
            assert(canon_name(15).len() != canon_name(31).len());
        } else if j == 16 {
            assert(canon_name(16).len() != canon_name(31).len());
        } else if j == 17 {
            assert(canon_name(17).len() != canon_name(31).len());
        } else if j == 18 {
            assert(canon_name(18).len() != canon_name(31).len());
        } else if j == 19 {
            assert(canon_name(19).len() != canon_name(31).len());
        } else if j == 20 {
            assert(canon_name(20).len() != canon_name(31).len());
        } else if j == 21 {
            assert(canon_name(21).len() != canon_name(31).len());
        } else if j == 22 {
            assert(canon_name(22).len() != canon_name(31).len());
        } else if j == 23 {
            assert(canon_name(23).len() != canon_name(31).len());
        } else if j == 24 {
            assert(canon_name(24).len() != canon_name(31).len());
        } else if j == 25 {
            assert(canon_name(25).len() != canon_name(31).len());
        } else if j == 26 {
            assert(canon_name(26).len() != canon_name(31).len());
        } else if j == 27 {
            assert(canon_name(27)[0] != canon_name(31)[0]);
        } else if j == 28 {
            assert(canon_name(28).len() != canon_name(31).len());
        } else if j == 29 {
            assert(canon_name(29).len() != canon_name(31).len());
        } else if j == 30 {
            assert(canon_name(30).len() != canon_name(31).len());
        }
    }
}

proof fn lemma_canon_name_new_32()
    ensures
        forall|j: int| 0 <= j < 32 ==> #[trigger] canon_name(j) != canon_name(32),
{
    assert forall|j: int| 0 <= j < 32 implies #[trigger] canon_name(j) != canon_name(32) by {
        if j == 0 {
            assert(canon_name(0).len() != canon_name(32).len());
        } else if j == 1 {
            assert(canon_name(1).len() != canon_name(32).len());
        } else if j == 2 {
            assert(canon_name(2).len() != canon_name(32).len());
        } else if j == 3 {
            assert(canon_name(3).len() != canon_name(32).len());
        } else if j == 4 {
            assert(canon_name(4).len() != canon_name(32).len());
        } else if j == 5 {
            assert(canon_name(5).len() != canon_name(32).len());
        } else if j == 6 {
            assert(canon_name(6).len() != canon_name(32).len());
        } else if j == 7 {
            assert(canon_name(7).len() != canon_name(32).len());
        } else if j == 8 {
            assert(canon_name(8).len() != canon_name(32).len());
        } else if j == 9 {
            assert(canon_name(9).len() != canon_name(32).len());
        } else if j == 10 {
            assert(canon_name(10).len() != canon_name(32).len());
        } else if j == 11 {
            assert(canon_name(11).len() != canon_name(32).len());
        } else if j == 12 {
            assert(canon_name(12).len() != canon_name(32).len());
        } else if j == 13 {
            assert(canon_name(13).len() != canon_name(32).len());
        } else if j == 14 {
            assert(canon_name(14).len() != canon_name(32).len());
        } else if j == 15 {
            assert(canon_name(15).len() != canon_name(32).len());
        } else if j == 16 {
            assert(canon_name(16).len() != canon_name(32).len());
        } else if j == 17 {
            assert(canon_name(17).len() != canon_name(32).len());
        } else if j == 18 {
            assert(canon_name(18).len() != canon_name(32).len());
        } else if j == 19 {
            assert(canon_name(19).len() != canon_name(32).len());
        } else if j == 20 {
            assert(canon_name(20).len() != canon_name(32).len());
        } else if j == 21 {
            assert(canon_name(21).len() != canon_name(32).len());
        } else if j == 22 {
            assert(canon_name(22).len() != canon_name(32).len());
        } else if j == 23 {
            assert(canon_name(23).len() != canon_name(32).len());
        } else if j == 24 {
            assert(canon_name(24).len() != canon_name(32).len());
        } else if j == 25 {
            assert(canon_name(25).len() != canon_name(32).len());
        } else if j == 26 {
            assert(canon_name(26).len() != canon_name(32).len());
        } else if j == 27 {
            assert(canon_name(27)[0] != canon_name(32)[0]);
        } else if j == 28 {
            assert(canon_name(28).len() != canon_name(32).len());
        } else if j == 29 {
            assert(canon_name(29).len() != canon_name(32).len());
        } else if j == 30 {
            assert(canon_name(30).len() != canon_name(32).len());
        } else if j == 31 {
            assert(canon_name(31)[0] != canon_name(32)[0]);
        }
    }
}

proof fn lemma_canon_name_new_33()
    ensures
        forall|j: int| 0 <= j < 33 ==> #[trigger] canon_name(j) != canon_name(33),
{
    assert forall|j: int| 0 <= j < 33 implies #[trigger] canon_name(j) != canon_name(33) by {
        if j == 0 {
            assert(canon_name(0).len() != canon_name(33).len());
        } else if j == 1 {
            assert(canon_name(1).len() != canon_name(33).len());
        } else if j == 2 {
            assert(canon_name(2).len() != canon_name(33).len());
        } else if j == 3 {
            assert(canon_name(3).len() != canon_name(33).len());
        } else if j == 4 {
            assert(canon_name(4).len() != canon_name(33).len());
        } else if j == 5 {
            assert(canon_name(5).len() != canon_name(33).len());
        } else if j == 6 {
            assert(canon_name(6).len() != canon_name(33).len());
        } else if j == 7 {
            assert(canon_name(7).len() != canon_name(33).len());
        } else if j == 8 {
            assert(canon_name(8).len() != canon_name(33).len());
        } else if j == 9 {
            assert(canon_name(9).len() != canon_name(33).len());
        } else if j == 10 {
            assert(canon_name(10).len() != canon_name(33).len());
        } else if j == 11 {
            assert(canon_name(11).len() != canon_name(33).len());
        } else if j == 12 {
            assert(canon_name(12).len() != canon_name(33).len());
        } else if j == 13 {
            assert(canon_name(13).len() != canon_name(33).len());
        } else if j == 14 {
            assert(canon_name(14).len() != canon_name(33).len());
        } else if j == 15 {
            assert(canon_name(15).len() != canon_name(33).len());
        } else if j == 16 {
            assert(canon_name(16).len() != canon_name(33).len());
        } else if j == 17 {
            assert(canon_name(17).len() != canon_name(33).len());
        } else if j == 18 {
            assert(canon_name(18).len() != canon_name(33).len());
        } else if j == 19 {
            assert(canon_name(19).len() != canon_name(33).len());
        } else if j == 20 {
            assert(canon_name(20).len() != canon_name(33).len());
        } else if j == 21 {
            assert(canon_name(21).len() != canon_name(33).len());
        } else if j == 22 {
            assert(canon_name(22).len() != canon_name(33).len());
        } else if j == 23 {
            assert(canon_name(23).len() != canon_name(33).len());
        } else if j == 24 {
            assert(canon_name(24).len() != canon_name(33).len());
        } else if j == 25 {
            assert(canon_name(25).len() != canon_name(33).len());
        } else if j == 26 {
            assert(canon_name(26).len() != canon_name(33).len());
        } else if j == 27 {
            assert(canon_name(27)[0] != canon_name(33)[0]);
        } else if j == 28 {
            assert(canon_name(28).len() != canon_name(33).len());
        } else if j == 29 {
            assert(canon_name(29).len() != canon_name(33).len());
        } else if j == 30 {
            assert(canon_name(30).len() != canon_name(33).len());
        } else if j == 31 {
            assert(canon_name(31)[0] != canon_name(33)[0]);
        } else if j == 32 {
            assert(canon_name(32)[0] != canon_name(33)[0]);
        }
    }
}

proof fn lemma_canon_name_new_34()
    ensures
        forall|j: int| 0 <= j < 34 ==> #[trigger] canon_name(j) != canon_name(34),
{
    assert forall|j: int| 0 <= j < 34 implies #[trigger] canon_name(j) != canon_name(34) by {
        if j == 0 {
            assert(canon_name(0).len() != canon_name(34).len());
        } else if j == 1 {
            assert(canon_name(1).len() != canon_name(34).len());
        } else if j == 2 {
            assert(canon_name(2).len() != canon_name(34).len());
        } else if j == 3 {
            assert(canon_name(3).len() != canon_name(34).len());
        } else if j == 4 {
            assert(canon_name(4).len() != canon_name(34).len());
        } else if j == 5 {
            assert(canon_name(5).len() != canon_name(34).len());
        } else if j == 6 {
            assert(canon_name(6).len() != canon_name(34).len());
        } else if j == 7 {
            assert(canon_name(7).len() != canon_name(34).len());
        } else if j == 8 {
            assert(canon_name(8).len() != canon_name(34).len());
        } else if j == 9 {
            assert(canon_name(9).len() != canon_name(34).len());
        } else if j == 10 {
            assert(canon_name(10).len() != canon_name(34).len());
        } else if j == 11 {
            assert(canon_name(11).len() != canon_name(34).len());
        } else if j == 12 {
            assert(canon_name(12).len() != canon_name(34).len());
        } else if j == 13 {
            assert(canon_name(13).len() != canon_name(34).len());
        } else if j == 14 {
            assert(canon_name(14).len() != canon_name(34).len());
        } else if j == 15 {
            assert(canon_name(15)[0] != canon_name(34)[0]);
        } else if j == 16 {
            assert(canon_name(16).len() != canon_name(34).len());
        } else if j == 17 {
            assert(canon_name(17).len() != canon_name(34).len());
        } else if j == 18 {
            assert(canon_name(18).len() != canon_name(34).len());
        } else if j == 19 {
            assert(canon_name(19)[0] != canon_name(34)[0]);
        } else if j == 20 {
            assert(canon_name(20).len() != canon_name(34).len());
        } else if j == 21 {
            assert(canon_name(21).len() != canon_name(34).len());
        } else if j == 22 {
            assert(canon_name(22).len() != canon_name(34).len());
        } else if j == 23 {
            assert(canon_name(23)[0] != canon_name(34)[0]);
        } else if j == 24 {
            assert(canon_name(24).len() != canon_name(34).len());
        } else if j == 25 {
            assert(canon_name(25).len() != canon_name(34).len());
        } else if j == 26 {
            assert(canon_name(26).len() != canon_name(34).len());
        } else if j == 27 {
            assert(canon_name(27).len() != canon_name(34).len());
        } else if j == 28 {
            assert(canon_name(28).len() != canon_name(34).len());
        } else if j == 29 {
            assert(canon_name(29).len() != canon_name(34).len());
        } else if j == 30 {
            assert(canon_name(30).len() != canon_name(34).len());
        } else if j == 31 {
            assert(canon_name(31).len() != canon_name(34).len());
        } else if j == 32 {
            assert(canon_name(32).len() != canon_name(34).len());
        } else if j == 33 {
            assert(canon_name(33).len() != canon_name(34).len());
        }
    }
}

proof fn lemma_canon_name_new_35()
    ensures
        forall|j: int| 0 <= j < 35 ==> #[trigger] canon_name(j) != canon_name(35),
{
    assert forall|j: int| 0 <= j < 35 implies #[trigger] canon_name(j) != canon_name(35) by {
        if j == 0 {
            assert(canon_name(0).len() != canon_name(35).len());
        } else if j == 1 {
            assert(canon_name(1).len() != canon_name(35).len());
        } else if j == 2 {
            assert(canon_name(2)[0] != canon_name(35)[0]);
        } else if j == 3 {
            assert(canon_name(3).len() != canon_name(35).len());
        } else if j == 4 {
            assert(canon_name(4).len() != canon_name(35).len());
        } else if j == 5 {
            assert(canon_name(5).len() != canon_name(35).len());
        } else if j == 6 {
            assert(canon_name(6).len() != canon_name(35).len());
        } else if j == 7 {
            assert(canon_name(7).len() != canon_name(35).len());
        } else if j == 8 {
            assert(canon_name(8).len() != canon_name(35).len());
        } else if j == 9 {
            assert(canon_name(9).len() != canon_name(35).len());
        } else if j == 10 {
            assert(canon_name(10).len() != canon_name(35).len());
        } else if j == 11 {
            assert(canon_name(11).len() != canon_name(35).len());
        } else if j == 12 {
            assert(canon_name(12).len() != canon_name(35).len());
        } else if j == 13 {
            assert(canon_name(13).len() != canon_name(35).len());
        } else if j == 14 {
            assert(canon_name(14).len() != canon_name(35).len());
        } else if j == 15 {
            assert(canon_name(15).len() != canon_name(35).len());
        } else if j == 16 {
            assert(canon_name(16).len() != canon_name(35).len());
        } else if j == 17 {
            assert(canon_name(17).len() != canon_name(35).len());
        } else if j == 18 {
            assert(canon_name(18).len() != canon_name(35).len());
        } else if j == 19 {
            assert(canon_name(19).len() != canon_name(35).len());
        } else if j == 20 {
            assert(canon_name(20).len() != canon_name(35).len());
        } else if j == 21 {
            assert(canon_name(21).len() != canon_name(35).len());
        } else if j == 22 {
            assert(canon_name(22).len() != canon_name(35).len());
        } else if j == 23 {
            assert(canon_name(23).len() != canon_name(35).len());
        } else if j == 24 {
            assert(canon_name(24).len() != canon_name(35).len());
        } else if j == 25 {
            assert(canon_name(25).len() != canon_name(35).len());
        } else if j == 26 {
            assert(canon_name(26).len() != canon_name(35).len());
        } else if j == 27 {
            assert(canon_name(27).len() != canon_name(35).len());
        } else if j == 28 {
            assert(canon_name(28).len() != canon_name(35).len());
        } else if j == 29 {
            assert(canon_name(29).len() != canon_name(35).len());
        } else if j == 30 {
            assert(canon_name(30).len() != canon_name(35).len());
        } else if j == 31 {
            assert(canon_name(31).len() != canon_name(35).len());
        } else if j == 32 {
            assert(canon_name(32).len() != canon_name(35).len());
        } else if j == 33 {
            assert(canon_name(33).len() != canon_name(35).len());
        } else if j == 34 {
            assert(canon_name(34).len() != canon_name(35).len());
        }
    }
}

proof fn lemma_canon_name_new_36()
    ensures
        forall|j: int| 0 <= j < 36 ==> #[trigger] canon_name(j) != canon_name(36),
{
    assert forall|j: int| 0 <= j < 36 implies #[trigger] canon_name(j) != canon_name(36) by {
        if j == 0 {
            assert(canon_name(0).len() != canon_name(36).len());
        } else if j == 1 {
            assert(canon_name(1)[0] != canon_name(36)[0]);
        } else if j == 2 {
            assert(canon_name(2).len() != canon_name(36).len());
        } else if j == 3 {
            assert(canon_name(3).len() != canon_name(36).len());
        } else if j == 4 {
            assert(canon_name(4).len() != canon_name(36).len());
        } else if j == 5 {
            assert(canon_name(5)[0] != canon_name(36)[0]);
        } else if j == 6 {
            assert(canon_name(6)[0] != canon_name(36)[0]);
        } else if j == 7 {
            assert(canon_name(7).len() != canon_name(36).len());
        } else if j == 8 {
            assert(canon_name(8).len() != canon_name(36).len());
        } else if j == 9 {
            assert(canon_name(9).len() != canon_name(36).len());
        } else if j == 10 {
            assert(canon_name(10)[0] != canon_name(36)[0]);
        } else if j == 11 {
            assert(canon_name(11)[0] != canon_name(36)[0]);
        } else if j == 12 {
            assert(canon_name(12).len() != canon_name(36).len());
        } else if j == 13 {
            assert(canon_name(13).len() != canon_name(36).len());
        } else if j == 14 {
            assert(canon_name(14).len() != canon_name(36).len());
        } else if j == 15 {
            assert(canon_name(15).len() != canon_name(36).len());
        } else if j == 16 {
            assert(canon_name(16)[0] != canon_name(36)[0]);
        } else if j == 17 {
            assert(canon_name(17).len() != canon_name(36).len());
        } else if j == 18 {
            assert(canon_name(18)[0] != canon_name(36)[0]);
        } else if j == 19 {
            assert(canon_name(19).len() != canon_name(36).len());
        } else if j == 20 {
            assert(canon_name(20).len() != canon_name(36).len());
        } else if j == 21 {
            assert(canon_name(21).len() != canon_name(36).len());
        } else if j == 22 {
            assert(canon_name(22)[0] != canon_name(36)[0]);
        } else if j == 23 {
            assert(canon_name(23).len() != canon_name(36).len());
        } else if j == 24 {
            assert(canon_name(24).len() != canon_name(36).len());
        } else if j == 25 {
            assert(canon_name(25).len() != canon_name(36).len());
        } else if j == 26 {
            assert(canon_name(26)[0] != canon_name(36)[0]);
        } else if j == 27 {
            assert(canon_name(27).len() != canon_name(36).len());
        } else if j == 28 {
            assert(canon_name(28).len() != canon_name(36).len());
        } else if j == 29 {
            assert(canon_name(29).len() != canon_name(36).len());
        } else if j == 30 {
            assert(canon_name(30).len() != canon_name(36).len());
        } else if j == 31 {
            assert(canon_name(31).len() != canon_name(36).len());
        } else if j == 32 {
            assert(canon_name(32).len() != canon_name(36).len());
        } else if j == 33 {
            assert(canon_name(33).len() != canon_name(36).len());
        } else if j == 34 {
            assert(canon_name(34).len() != canon_name(36).len());
        } else if j == 35 {
            assert(canon_name(35).len() != canon_name(36).len());
        }
    }
}

proof fn lemma_canon_name_new_37()
    ensures
        forall|j: int| 0 <= j < 37 ==> #[trigger] canon_name(j) != canon_name(37),
{
    assert forall|j: int| 0 <= j < 37 implies #[trigger] canon_name(j) != canon_name(37) by {
        if j == 0 {
            assert(canon_name(0).len() != canon_name(37).len());
        } else if j == 1 {
            assert(canon_name(1).len() != canon_name(37).len());
        } else if j == 2 {
            assert(canon_name(2)[0] != canon_name(37)[0]);
        } else if j == 3 {
            assert(canon_name(3).len() != canon_name(37).len());
        } else if j == 4 {
            assert(canon_name(4).len() != canon_name(37).len());
        } else if j == 5 {
            assert(canon_name(5).len() != canon_name(37).len());
        } else if j == 6 {
            assert(canon_name(6).len() != canon_name(37).len());
        } else if j == 7 {
            assert(canon_name(7).len() != canon_name(37).len());
        } else if j == 8 {
            assert(canon_name(8).len() != canon_name(37).len());
        } else if j == 9 {
            assert(canon_name(9).len() != canon_name(37).len());
        } else if j == 10 {
            assert(canon_name(10).len() != canon_name(37).len());
        } else if j == 11 {
            assert(canon_name(11).len() != canon_name(37).len());
        } else if j == 12 {
            assert(canon_name(12).len() != canon_name(37).len());
        } else if j == 13 {
            assert(canon_name(13).len() != canon_name(37).len());
        } else if j == 14 {
            assert(canon_name(14).len() != canon_name(37).len());
        } else if j == 15 {
            assert(canon_name(15).len() != canon_name(37).len());
        } else if j == 16 {
            assert(canon_name(16).len() != canon_name(37).len());
        } else if j == 17 {
            assert(canon_name(17).len() != canon_name(37).len());
        } else if j == 18 {
            assert(canon_name(18).len() != canon_name(37).len());
        } else if j == 19 {
            assert(canon_name(19).len() != canon_name(37).len());
        } else if j == 20 {
            assert(canon_name(20).len() != canon_name(37).len());
        } else if j == 21 {
            assert(canon_name(21).len() != canon_name(37).len());
        } else if j == 22 {
            assert(canon_name(22).len() != canon_name(37).len());
        } else if j == 23 {
            assert(canon_name(23).len() != canon_name(37).len());
        } else if j == 24 {
            assert(canon_name(24).len() != canon_name(37).len());
        } else if j == 25 {
            assert(canon_name(25).len() != canon_name(37).len());
        } else if j == 26 {
            assert(canon_name(26).len() != canon_name(37).len());
        } else if j == 27 {
            assert(canon_name(27).len() != canon_name(37).len());
        } else if j == 28 {
            assert(canon_name(28).len() != canon_name(37).len());
        } else if j == 29 {
            assert(canon_name(29).len() != canon_name(37).len());
        } else if j == 30 {
            assert(canon_name(30).len() != canon_name(37).len());
        } else if j == 31 {
            assert(canon_name(31).len() != canon_name(37).len());
        } else if j == 32 {
            assert(canon_name(32).len() != canon_name(37).len());
        } else if j == 33 {
            assert(canon_name(33).len() != canon_name(37).len());
        } else if j == 34 {
            assert(canon_name(34).len() != canon_name(37).len());
        } else if j == 35 {
            assert(canon_name(35)[2] != canon_name(37)[2]);
        } else if j == 36 {
            assert(canon_name(36).len() != canon_name(37).len());
        }
    }
}

proof fn lemma_canon_name_new_38()
    ensures
        forall|j: int| 0 <= j < 38 ==> #[trigger] canon_name(j) != canon_name(38),
{
    assert forall|j: int| 0 <= j < 38 implies #[trigger] canon_name(j) != canon_name(38) by {
        if j == 0 {
            assert(canon_name(0)[0] != canon_name(38)[0]);
        } else if j == 1 {
            assert(canon_name(1).len() != canon_name(38).len());
        } else if j == 2 {
            assert(canon_name(2).len() != canon_name(38).len());
        } else if j == 3 {
            assert(canon_name(3)[0] != canon_name(38)[0]);
        } else if j == 4 {
            assert(canon_name(4).len() != canon_name(38).len());
        } else if j == 5 {
            assert(canon_name(5).len() != canon_name(38).len());
        } else if j == 6 {
            assert(canon_name(6).len() != canon_name(38).len());
        } else if j == 7 {
            assert(canon_name(7).len() != canon_name(38).len());
        } else if j == 8 {
            assert(canon_name(8)[0] != canon_name(38)[0]);
        } else if j == 9 {
            assert(canon_name(9)[0] != canon_name(38)[0]);
        } else if j == 10 {
            assert(canon_name(10).len() != canon_name(38).len());
        } else if j == 11 {
            assert(canon_name(11).len() != canon_name(38).len());
        } else if j == 12 {
            assert(canon_name(12).len() != canon_name(38).len());
        } else if j == 13 {
            assert(canon_name(13).len() != canon_name(38).len());
        } else if j == 14 {
            assert(canon_name(14).len() != canon_name(38).len());
        } else if j == 15 {
            assert(canon_name(15).len() != canon_name(38).len());
        } else if j == 16 {
            assert(canon_name(16).len() != canon_name(38).len());
        } else if j == 17 {
            assert(canon_name(17).len() != canon_name(38).len());
        } else if j == 18 {
            assert(canon_name(18).len() != canon_name(38).len());
        } else if j == 19 {
            assert(canon_name(19).len() != canon_name(38).len());
        } else if j == 20 {
            assert(canon_name(20).len() != canon_name(38).len());
        } else if j == 21 {
            assert(canon_name(21).len() != canon_name(38).len());
        } else if j == 22 {
            assert(canon_name(22).len() != canon_name(38).len());
        } else if j == 23 {
            assert(canon_name(23).len() != canon_name(38).len());
        } else if j == 24 {
            assert(canon_name(24).len() != canon_name(38).len());
        } else if j == 25 {
            assert(canon_name(25)[0] != canon_name(38)[0]);
        } else if j == 26 {
            assert(canon_name(26).len() != canon_name(38).len());
        } else if j == 27 {
            assert(canon_name(27).len() != canon_name(38).len());
        } else if j == 28 {
            assert(canon_name(28).len() != canon_name(38).len());
        } else if j == 29 {
            assert(canon_name(29).len() != canon_name(38).len());
        } else if j == 30 {
            assert(canon_name(30)[0] != canon_name(38)[0]);
        } else if j == 31 {
            assert(canon_name(31).len() != canon_name(38).len());
        } else if j == 32 {
            assert(canon_name(32).len() != canon_name(38).len());
        } else if j == 33 {
            assert(canon_name(33).len() != canon_name(38).len());
        } else if j == 34 {
            assert(canon_name(34).len() != canon_name(38).len());
        } else if j == 35 {
            assert(canon_name(35).len() != canon_name(38).len());
        } else if j == 36 {
            assert(canon_name(36).len() != canon_name(38).len());
        } else if j == 37 {
            assert(canon_name(37).len() != canon_name(38).len());
        }
    }
}

proof fn lemma_canon_name_new_39()
    ensures
        forall|j: int| 0 <= j < 39 ==> #[trigger] canon_name(j) != canon_name(39),
{
    assert forall|j: int| 0 <= j < 39 implies #[trigger] canon_name(j) != canon_name(39) by {
        if j == 0 {
            assert(canon_name(0)[0] != canon_name(39)[0]);
        } else if j == 1 {
            assert(canon_name(1).len() != canon_name(39).len());
        } else if j == 2 {
            assert(canon_name(2).len() != canon_name(39).len());
        } else if j == 3 {
            assert(canon_name(3)[0] != canon_name(39)[0]);
        } else if j == 4 {
            assert(canon_name(4).len() != canon_name(39).len());
        } else if j == 5 {
            assert(canon_name(5).len() != canon_name(39).len());
        } else if j == 6 {
            assert(canon_name(6).len() != canon_name(39).len());
        } else if j == 7 {
            assert(canon_name(7).len() != canon_name(39).len());
        } else if j == 8 {
            assert(canon_name(8)[0] != canon_name(39)[0]);
        } else if j == 9 {
            assert(canon_name(9)[0] != canon_name(39)[0]);
        } else if j == 10 {
            assert(canon_name(10).len() != canon_name(39).len());
        } else if j == 11 {
            assert(canon_name(11).len() != canon_name(39).len());
        } else if j == 12 {
            assert(canon_name(12).len() != canon_name(39).len());
        } else if j == 13 {
            assert(canon_name(13).len() != canon_name(39).len());
        } else if j == 14 {
            assert(canon_name(14).len() != canon_name(39).len());
        } else if j == 15 {
            assert(canon_name(15).len() != canon_name(39).len());
        } else if j == 16 {
            assert(canon_name(16).len() != canon_name(39).len());
        } else if j == 17 {
            assert(canon_name(17).len() != canon_name(39).len());
        } else if j == 18 {
            assert(canon_name(18).len() != canon_name(39).len());
        } else if j == 19 {
            assert(canon_name(19).len() != canon_name(39).len());
        } else if j == 20 {
            assert(canon_name(20).len() != canon_name(39).len());
        } else if j == 21 {
            assert(canon_name(21).len() != canon_name(39).len());
        } else if j == 22 {
            assert(canon_name(22).len() != canon_name(39).len());
        } else if j == 23 {
            assert(canon_name(23).len() != canon_name(39).len());
        } else if j == 24 {
            assert(canon_name(24).len() != canon_name(39).len());
        } else if j == 25 {
            assert(canon_name(25)[0] != canon_name(39)[0]);
        } else if j == 26 {
            assert(canon_name(26).len() != canon_name(39).len());
        } else if j == 27 {
            assert(canon_name(27).len() != canon_name(39).len());
        } else if j == 28 {
            assert(canon_name(28).len() != canon_name(39).len());
        } else if j == 29 {
            assert(canon_name(29).len() != canon_name(39).len());
        } else if j == 30 {
            assert(canon_name(30)[0] != canon_name(39)[0]);
        } else if j == 31 {
            assert(canon_name(31).len() != canon_name(39).len());
        } else if j == 32 {
            assert(canon_name(32).len() != canon_name(39).len());
        } else if j == 33 {
            assert(canon_name(33).len() != canon_name(39).len());
        } else if j == 34 {
            assert(canon_name(34).len() != canon_name(39).len());
        } else if j == 35 {
            assert(canon_name(35).len() != canon_name(39).len());
        } else if j == 36 {
            assert(canon_name(36).len() != canon_name(39).len());
        } else if j == 37 {
            assert(canon_name(37).len() != canon_name(39).len());
        } else if j == 38 {
            assert(canon_name(38)[2] != canon_name(39)[2]);
        }
    }
}

proof fn lemma_canon_name_new_40()
    ensures
        forall|j: int| 0 <= j < 40 ==> #[trigger] canon_name(j) != canon_name(40),
{
    assert forall|j: int| 0 <= j < 40 implies #[trigger] canon_name(j) != canon_name(40) by {
        if j == 0 {
            assert(canon_name(0).len() != canon_name(40).len());
        } else if j == 1 {
            assert(canon_name(1).len() != canon_name(40).len());
        } else if j == 2 {
            assert(canon_name(2).len() != canon_name(40).len());
        } else if j == 3 {
            assert(canon_name(3).len() != canon_name(40).len());
        } else if j == 4 {
            assert(canon_name(4).len() != canon_name(40).len());
        } else if j == 5 {
            assert(canon_name(5).len() != canon_name(40).len());
        } else if j == 6 {
            assert(canon_name(6).len() != canon_name(40).len());
        } else if j == 7 {
            assert(canon_name(7)[0] != canon_name(40)[0]);
        } else if j == 8 {
            assert(canon_name(8).len() != canon_name(40).len());
        } else if j == 9 {
            assert(canon_name(9).len() != canon_name(40).len());
        } else if j == 10 {
            assert(canon_name(10).len() != canon_name(40).len());
        } else if j == 11 {
            assert(canon_name(11).len() != canon_name(40).len());
        } else if j == 12 {
            assert(canon_name(12).len() != canon_name(40).len());
        } else if j == 13 {
            assert(canon_name(13).len() != canon_name(40).len());
        } else if j == 14 {
            assert(canon_name(14)[0] != canon_name(40)[0]);
        } else if j == 15 {
            assert(canon_name(15).len() != canon_name(40).len());
        } else if j == 16 {
            assert(canon_name(16).len() != canon_name(40).len());
        } else if j == 17 {
            assert(canon_name(17).len() != canon_name(40).len());
        } else if j == 18 {
            assert(canon_name(18).len() != canon_name(40).len());
        } else if j == 19 {
            assert(canon_name(19).len() != canon_name(40).len());
        } else if j == 20 {
            assert(canon_name(20).len() != canon_name(40).len());
        } else if j == 21 {
            assert(canon_name(21).len() != canon_name(40).len());
        } else if j == 22 {
            assert(canon_name(22).len() != canon_name(40).len());
        } else if j == 23 {
            assert(canon_name(23).len() != canon_name(40).len());
        } else if j == 24 {
            assert(canon_name(24).len() != canon_name(40).len());
        } else if j == 25 {
            assert(canon_name(25).len() != canon_name(40).len());
        } else if j == 26 {
            assert(canon_name(26).len() != canon_name(40).len());
        } else if j == 27 {
            assert(canon_name(27).len() != canon_name(40).len());
        } else if j == 28 {
            assert(canon_name(28)[0] != canon_name(40)[0]);
        } else if j == 29 {
            assert(canon_name(29)[0] != canon_name(40)[0]);
        } else if j == 30 {
            assert(canon_name(30).len() != canon_name(40).len());
        } else if j == 31 {
            assert(canon_name(31).len() != canon_name(40).len());
        } else if j == 32 {
            assert(canon_name(32).len() != canon_name(40).len());
        } else if j == 33 {
            assert(canon_name(33).len() != canon_name(40).len());
        } else if j == 34 {
            assert(canon_name(34).len() != canon_name(40).len());
        } else if j == 35 {
            assert(canon_name(35).len() != canon_name(40).len());
        } else if j == 36 {
            assert(canon_name(36).len() != canon_name(40).len());
        } else if j == 37 {
            assert(canon_name(37).len() != canon_name(40).len());
        } else if j == 38 {
            assert(canon_name(38).len() != canon_name(40).len());
        } else if j == 39 {
            assert(canon_name(39).len() != canon_name(40).len());
        }
    }
}

proof fn lemma_canon_name_new_41()
    ensures
        forall|j: int| 0 <= j < 41 ==> #[trigger] canon_name(j) != canon_name(41),
{
    assert forall|j: int| 0 <= j < 41 implies #[trigger] canon_name(j) != canon_name(41) by {
        if j == 0 {
            assert(canon_name(0).len() != canon_name(41).len());
        } else if j == 1 {
            assert(canon_name(1).len() != canon_name(41).len());
        } else if j == 2 {
            assert(canon_name(2).len() != canon_name(41).len());
        } else if j == 3 {
            assert(canon_name(3).len() != canon_name(41).len());
        } else if j == 4 {
            assert(canon_name(4).len() != canon_name(41).len());
        } else if j == 5 {
            assert(canon_name(5).len() != canon_name(41).len());
        } else if j == 6 {
            assert(canon_name(6).len() != canon_name(41).len());
        } else if j == 7 {
            assert(canon_name(7)[0] != canon_name(41)[0]);
        } else if j == 8 {
            assert(canon_name(8).len() != canon_name(41).len());
        } else if j == 9 {
            assert(canon_name(9).len() != canon_name(41).len());
        } else if j == 10 {
            assert(canon_name(10).len() != canon_name(41).len());
        } else if j == 11 {
            assert(canon_name(11).len() != canon_name(41).len());
        } else if j == 12 {
            assert(canon_name(12).len() != canon_name(41).len());
        } else if j == 13 {
            assert(canon_name(13).len() != canon_name(41).len());
        } else if j == 14 {
            assert(canon_name(14)[0] != canon_name(41)[0]);
        } else if j == 15 {
            assert(canon_name(15).len() != canon_name(41).len());
        } else if j == 16 {
            assert(canon_name(16).len() != canon_name(41).len());
        } else if j == 17 {
            assert(canon_name(17).len() != canon_name(41).len());
        } else if j == 18 {
            assert(canon_name(18).len() != canon_name(41).len());
        } else if j == 19 {
            assert(canon_name(19).len() != canon_name(41).len());
        } else if j == 20 {
            assert(canon_name(20).len() != canon_name(41).len());
        } else if j == 21 {
            assert(canon_name(21).len() != canon_name(41).len());
        } else if j == 22 {
            assert(canon_name(22).len() != canon_name(41).len());
        } else if j == 23 {
            assert(canon_name(23).len() != canon_name(41).len());
        } else if j == 24 {
            assert(canon_name(24).len() != canon_name(41).len());
        } else if j == 25 {
            assert(canon_name(25).len() != canon_name(41).len());
        } else if j == 26 {
            assert(canon_name(26).len() != canon_name(41).len());
        } else if j == 27 {
            assert(canon_name(27).len() != canon_name(41).len());
        } else if j == 28 {
            assert(canon_name(28)[0] != canon_name(41)[0]);
        } else if j == 29 {
            assert(canon_name(29)[0] != canon_name(41)[0]);
        } else if j == 30 {
            assert(canon_name(30).len() != canon_name(41).len());
        } else if j == 31 {
            assert(canon_name(31).len() != canon_name(41).len());
        } else if j == 32 {
            assert(canon_name(32).len() != canon_name(41).len());
        } else if j == 33 {
            assert(canon_name(33).len() != canon_name(41).len());
        } else if j == 34 {
            assert(canon_name(34).len() != canon_name(41).len());
        } else if j == 35 {
            assert(canon_name(35).len() != canon_name(41).len());
        } else if j == 36 {
            assert(canon_name(36).len() != canon_name(41).len());
        } else if j == 37 {
            assert(canon_name(37).len() != canon_name(41).len());
        } else if j == 38 {
            assert(canon_name(38).len() != canon_name(41).len());
        } else if j == 39 {
            assert(canon_name(39).len() != canon_name(41).len());
        } else if j == 40 {
            assert(canon_name(40)[0] != canon_name(41)[0]);
        }
    }
}

proof fn lemma_canon_name_new_42()
    ensures
        forall|j: int| 0 <= j < 42 ==> #[trigger] canon_name(j) != canon_name(42),
{
    assert forall|j: int| 0 <= j < 42 implies #[trigger] canon_name(j) != canon_name(42) by {
        if j == 0 {
            assert(canon_name(0).len() != canon_name(42).len());
        } else if j == 1 {
            assert(canon_name(1).len() != canon_name(42).len());
        } else if j == 2 {
            assert(canon_name(2).len() != canon_name(42).len());
        } else if j == 3 {
            assert(canon_name(3).len() != canon_name(42).len());
        } else if j == 4 {
            assert(canon_name(4).len() != canon_name(42).len());
        } else if j == 5 {
            assert(canon_name(5).len() != canon_name(42).len());
        } else if j == 6 {
            assert(canon_name(6).len() != canon_name(42).len());
        } else if j == 7 {
            assert(canon_name(7)[0] != canon_name(42)[0]);
        } else if j == 8 {
            assert(canon_name(8).len() != canon_name(42).len());
        } else if j == 9 {
            assert(canon_name(9).len() != canon_name(42).len());
        } else if j == 10 {
            assert(canon_name(10).len() != canon_name(42).len());
        } else if j == 11 {
            assert(canon_name(11).len() != canon_name(42).len());
        } else if j == 12 {
            assert(canon_name(12).len() != canon_name(42).len());
        } else if j == 13 {
            assert(canon_name(13).len() != canon_name(42).len());
        } else if j == 14 {
            assert(canon_name(14)[0] != canon_name(42)[0]);
        } else if j == 15 {
            assert(canon_name(15).len() != canon_name(42).len());
        } else if j == 16 {
            assert(canon_name(16).len() != canon_name(42).len());
        } else if j == 17 {
            assert(canon_name(17).len() != canon_name(42).len());
        } else if j == 18 {
            assert(canon_name(18).len() != canon_name(42).len());
        } else if j == 19 {
            assert(canon_name(19).len() != canon_name(42).len());
        } else if j == 20 {
            assert(canon_name(20).len() != canon_name(42).len());
        } else if j == 21 {
            assert(canon_name(21).len() != canon_name(42).len());
        } else if j == 22 {
            assert(canon_name(22).len() != canon_name(42).len());
        } else if j == 23 {
            assert(canon_name(23).len() != canon_name(42).len());
        } else if j == 24 {
            assert(canon_name(24).len() != canon_name(42).len());
        } else if j == 25 {
            assert(canon_name(25).len() != canon_name(42).len());
        } else if j == 26 {
            assert(canon_name(26).len() != canon_name(42).len());
        } else if j == 27 {
            assert(canon_name(27).len() != canon_name(42).len());
        } else if j == 28 {
            assert(canon_name(28)[2] != canon_name(42)[2]);
        } else if j == 29 {
            assert(canon_name(29)[0] != canon_name(42)[0]);
        } else if j == 30 {
            assert(canon_name(30).len() != canon_name(42).len());
        } else if j == 31 {
            assert(canon_name(31).len() != canon_name(42).len());
        } else if j == 32 {
            assert(canon_name(32).len() != canon_name(42).len());
        } else if j == 33 {
            assert(canon_name(33).len() != canon_name(42).len());
        } else if j == 34 {
            assert(canon_name(34).len() != canon_name(42).len());
        } else if j == 35 {
            assert(canon_name(35).len() != canon_name(42).len());
        } else if j == 36 {
            assert(canon_name(36).len() != canon_name(42).len());
        } else if j == 37 {
            assert(canon_name(37).len() != canon_name(42).len());
        } else if j == 38 {
            assert(canon_name(38).len() != canon_name(42).len());
        } else if j == 39 {
            assert(canon_name(39).len() != canon_name(42).len());
        } else if j == 40 {
            assert(canon_name(40)[0] != canon_name(42)[0]);
        } else if j == 41 {
            assert(canon_name(41)[0] != canon_name(42)[0]);
        }
    }
}

proof fn lemma_canon_name_new_43()
    ensures
        forall|j: int| 0 <= j < 43 ==> #[trigger] canon_name(j) != canon_name(43),
{
    assert forall|j: int| 0 <= j < 43 implies #[trigger] canon_name(j) != canon_name(43) by {
        if j == 0 {
            assert(canon_name(0).len() != canon_name(43).len());
        } else if j == 1 {
            assert(canon_name(1).len() != canon_name(43).len());
        } else if j == 2 {
            assert(canon_name(2).len() != canon_name(43).len());
        } else if j == 3 {
            assert(canon_name(3).len() != canon_name(43).len());
        } else if j == 4 {
            assert(canon_name(4).len() != canon_name(43).len());
        } else if j == 5 {
            assert(canon_name(5).len() != canon_name(43).len());
        } else if j == 6 {
            assert(canon_name(6).len() != canon_name(43).len());
        } else if j == 7 {
            assert(canon_name(7)[0] != canon_name(43)[0]);
        } else if j == 8 {
            assert(canon_name(8).len() != canon_name(43).len());
        } else if j == 9 {
            assert(canon_name(9).len() != canon_name(43).len());
        } else if j == 10 {
            assert(canon_name(10).len() != canon_name(43).len());
        } else if j == 11 {
            assert(canon_name(11).len() != canon_name(43).len());
        } else if j == 12 {
            assert(canon_name(12).len() != canon_name(43).len());
        } else if j == 13 {
            assert(canon_name(13).len() != canon_name(43).len());
        } else if j == 14 {
            assert(canon_name(14)[0] != canon_name(43)[0]);
        } else if j == 15 {
            assert(canon_name(15).len() != canon_name(43).len());
        } else if j == 16 {
            assert(canon_name(16).len() != canon_name(43).len());
        } else if j == 17 {
            assert(canon_name(17).len() != canon_name(43).len());
        } else if j == 18 {
            assert(canon_name(18).len() != canon_name(43).len());
        } else if j == 19 {
            assert(canon_name(19).len() != canon_name(43).len());
        } else if j == 20 {
            assert(canon_name(20).len() != canon_name(43).len());
        } else if j == 21 {
            assert(canon_name(21).len() != canon_name(43).len());
        } else if j == 22 {
            assert(canon_name(22).len() != canon_name(43).len());
        } else if j == 23 {
            assert(canon_name(23).len() != canon_name(43).len());
        } else if j == 24 {
            assert(canon_name(24).len() != canon_name(43).len());
        } else if j == 25 {
            assert(canon_name(25).len() != canon_name(43).len());
        } else if j == 26 {
            assert(canon_name(26).len() != canon_name(43).len());
        } else if j == 27 {
            assert(canon_name(27).len() != canon_name(43).len());
        } else if j == 28 {
            assert(canon_name(28)[0] != canon_name(43)[0]);
        } else if j == 29 {
            assert(canon_name(29)[1] != canon_name(43)[1]);
        } else if j == 30 {
            assert(canon_name(30).len() != canon_name(43).len());
        } else if j == 31 {
            assert(canon_name(31).len() != canon_name(43).len());
        } else if j == 32 {
            assert(canon_name(32).len() != canon_name(43).len());
        } else if j == 33 {
            assert(canon_name(33).len() != canon_name(43).len());
        } else if j == 34 {
            assert(canon_name(34).len() != canon_name(43).len());
        } else if j == 35 {
            assert(canon_name(35).len() != canon_name(43).len());
        } else if j == 36 {
            assert(canon_name(36).len() != canon_name(43).len());
        } else if j == 37 {
            assert(canon_name(37).len() != canon_name(43).len());
        } else if j == 38 {
            assert(canon_name(38).len() != canon_name(43).len());
        } else if j == 39 {
            assert(canon_name(39).len() != canon_name(43).len());
        } else if j == 40 {
            assert(canon_name(40)[0] != canon_name(43)[0]);
        } else if j == 41 {
            assert(canon_name(41)[0] != canon_name(43)[0]);
        } else if j == 42 {
            assert(canon_name(42)[0] != canon_name(43)[0]);
        }
    }
}

proof fn lemma_canon_name_new_44()
    ensures
        forall|j: int| 0 <= j < 44 ==> #[trigger] canon_name(j) != canon_name(44),
{
    assert forall|j: int| 0 <= j < 44 implies #[trigger] canon_name(j) != canon_name(44) by {
        if j == 0 {
            assert(canon_name(0).len() != canon_name(44).len());
        } else if j == 1 {
            assert(canon_name(1)[0] != canon_name(44)[0]);
        } else if j == 2 {
            assert(canon_name(2).len() != canon_name(44).len());
        } else if j == 3 {
            assert(canon_name(3).len() != canon_name(44).len());
        } else if j == 4 {
            assert(canon_name(4).len() != canon_name(44).len());
        } else if j == 5 {
            assert(canon_name(5)[0] != canon_name(44)[0]);
        } else if j == 6 {
            assert(canon_name(6)[0] != canon_name(44)[0]);
        } else if j == 7 {
            assert(canon_name(7).len() != canon_name(44).len());
        } else if j == 8 {
            assert(canon_name(8).len() != canon_name(44).len());
        } else if j == 9 {
            assert(canon_name(9).len() != canon_name(44).len());
        } else if j == 10 {
            assert(canon_name(10)[0] != canon_name(44)[0]);
        } else if j == 11 {
            assert(canon_name(11)[0] != canon_name(44)[0]);
        } else if j == 12 {
            assert(canon_name(12).len() != canon_name(44).len());
        } else if j == 13 {
            assert(canon_name(13).len() != canon_name(44).len());
        } else if j == 14 {
            assert(canon_name(14).len() != canon_name(44).len());
        } else if j == 15 {
            assert(canon_name(15).len() != canon_name(44).len());
        } else if j == 16 {
            assert(canon_name(16)[0] != canon_name(44)[0]);
        } else if j == 17 {
            assert(canon_name(17).len() != canon_name(44).len());
        } else if j == 18 {
            assert(canon_name(18)[0] != canon_name(44)[0]);
        } else if j == 19 {
            assert(canon_name(19).len() != canon_name(44).len());
        } else if j == 20 {
            assert(canon_name(20).len() != canon_name(44).len());
        } else if j == 21 {
            assert(canon_name(21).len() != canon_name(44).len());
        } else if j == 22 {
            assert(canon_name(22)[0] != canon_name(44)[0]);
        } else if j == 23 {
            assert(canon_name(23).len() != canon_name(44).len());
        } else if j == 24 {
            assert(canon_name(24).len() != canon_name(44).len());
        } else if j == 25 {
            assert(canon_name(25).len() != canon_name(44).len());
        } else if j == 26 {
            assert(canon_name(26)[0] != canon_name(44)[0]);
        } else if j == 27 {
            assert(canon_name(27).len() != canon_name(44).len());
        } else if j == 28 {
            assert(canon_name(28).len() != canon_name(44).len());
        } else if j == 29 {
            assert(canon_name(29).len() != canon_name(44).len());
        } else if j == 30 {
            assert(canon_name(30).len() != canon_name(44).len());
        } else if j == 31 {
            assert(canon_name(31).len() != canon_name(44).len());
        } else if j == 32 {
            assert(canon_name(32).len() != canon_name(44).len());
        } else if j == 33 {
            assert(canon_name(33).len() != canon_name(44).len());
        } else if j == 34 {
            assert(canon_name(34).len() != canon_name(44).len());
        } else if j == 35 {
            assert(canon_name(35).len() != canon_name(44).len());
        } else if j == 36 {
            assert(canon_name(36)[0] != canon_name(44)[0]);
        } else if j == 37 {
            assert(canon_name(37).len() != canon_name(44).len());
        } else if j == 38 {
            assert(canon_name(38).len() != canon_name(44).len());
        } else if j == 39 {
            assert(canon_name(39).len() != canon_name(44).len());
        } else if j == 40 {
            assert(canon_name(40).len() != canon_name(44).len());
        } else if j == 41 {
            assert(canon_name(41).len() != canon_name(44).len());
        } else if j == 42 {
            assert(canon_name(42).len() != canon_name(44).len());
        } else if j == 43 {
            assert(canon_name(43).len() != canon_name(44).len());
        }
    }
}

proof fn lemma_canon_name_new_45()
    ensures
        forall|j: int| 0 <= j < 45 ==> #[trigger] canon_name(j) != canon_name(45),
{
    assert forall|j: int| 0 <= j < 45 implies #[trigger] canon_name(j) != canon_name(45) by {
        if j == 0 {
            assert(canon_name(0).len() != canon_name(45).len());
        } else if j == 1 {
            assert(canon_name(1).len() != canon_name(45).len());
        } else if j == 2 {
            assert(canon_name(2).len() != canon_name(45).len());
        } else if j == 3 {
            assert(canon_name(3).len() != canon_name(45).len());
        } else if j == 4 {
            assert(canon_name(4).len() != canon_name(45).len());
        } else if j == 5 {
            assert(canon_name(5).len() != canon_name(45).len());
        } else if j == 6 {
            assert(canon_name(6).len() != canon_name(45).len());
        } else if j == 7 {
            assert(canon_name(7).len() != canon_name(45).len());
        } else if j == 8 {
            assert(canon_name(8).len() != canon_name(45).len());
        } else if j == 9 {
            assert(canon_name(9).len() != canon_name(45).len());
        } else if j == 10 {
            assert(canon_name(10).len() != canon_name(45).len());
        } else if j == 11 {
            assert(canon_name(11).len() != canon_name(45).len());
        } else if j == 12 {
            assert(canon_name(12).len() != canon_name(45).len());
        } else if j == 13 {
            assert(canon_name(13).len() != canon_name(45).len());
        } else if j == 14 {
            assert(canon_name(14).len() != canon_name(45).len());
        } else if j == 15 {
            assert(canon_name(15).len() != canon_name(45).len());
        } else if j == 16 {
            assert(canon_name(16).len() != canon_name(45).len());
        } else if j == 17 {
            assert(canon_name(17).len() != canon_name(45).len());
        } else if j == 18 {
            assert(canon_name(18).len() != canon_name(45).len());
        } else if j == 19 {
            assert(canon_name(19).len() != canon_name(45).len());
        } else if j == 20 {
            assert(canon_name(20)[0] != canon_name(45)[0]);
        } else if j == 21 {
            assert(canon_name(21).len() != canon_name(45).len());
        } else if j == 22 {
            assert(canon_name(22).len() != canon_name(45).len());
        } else if j == 23 {
            assert(canon_name(23).len() != canon_name(45).len());
        } else if j == 24 {
            assert(canon_name(24)[0] != canon_name(45)[0]);
        } else if j == 25 {
            assert(canon_name(25).len() != canon_name(45).len());
        } else if j == 26 {
            assert(canon_name(26).len() != canon_name(45).len());
        } else if j == 27 {
            assert(canon_name(27).len() != canon_name(45).len());
        } else if j == 28 {
            assert(canon_name(28).len() != canon_name(45).len());
        } else if j == 29 {
            assert(canon_name(29).len() != canon_name(45).len());
        } else if j == 30 {
            assert(canon_name(30).len() != canon_name(45).len());
        } else if j == 31 {
            assert(canon_name(31).len() != canon_name(45).len());
        } else if j == 32 {
            assert(canon_name(32).len() != canon_name(45).len());
        } else if j == 33 {
            assert(canon_name(33).len() != canon_name(45).len());
        } else if j == 34 {
            assert(canon_name(34).len() != canon_name(45).len());
        } else if j == 35 {
            assert(canon_name(35).len() != canon_name(45).len());
        } else if j == 36 {
            assert(canon_name(36).len() != canon_name(45).len());
        } else if j == 37 {
            assert(canon_name(37).len() != canon_name(45).len());
        } else if j == 38 {
            assert(canon_name(38).len() != canon_name(45).len());
        } else if j == 39 {
            assert(canon_name(39).len() != canon_name(45).len());
        } else if j == 40 {
            assert(canon_name(40).len() != canon_name(45).len());
        } else if j == 41 {
            assert(canon_name(41).len() != canon_name(45).len());
        } else if j == 42 {
            assert(canon_name(42).len() != canon_name(45).len());
        } else if j == 43 {
            assert(canon_name(43).len() != canon_name(45).len());
        } else if j == 44 {
            assert(canon_name(44).len() != canon_name(45).len());
        }
    }
}

proof fn lemma_canon_name_new_46()
    ensures
        forall|j: int| 0 <= j < 46 ==> #[trigger] canon_name(j) != canon_name(46),
{
    assert forall|j: int| 0 <= j < 46 implies #[trigger] canon_name(j) != canon_name(46) by {
        if j == 0 {
            assert(canon_name(0).len() != canon_name(46).len());
        } else if j == 1 {
            assert(canon_name(1).len() != canon_name(46).len());
        } else if j == 2 {
            assert(canon_name(2).len() != canon_name(46).len());
        } else if j == 3 {
            assert(canon_name(3).len() != canon_name(46).len());
        } else if j == 4 {
            assert(canon_name(4).len() != canon_name(46).len());
        } else if j == 5 {
            assert(canon_name(5).len() != canon_name(46).len());
        } else if j == 6 {
            assert(canon_name(6).len() != canon_name(46).len());
        } else if j == 7 {
            assert(canon_name(7).len() != canon_name(46).len());
        } else if j == 8 {
            assert(canon_name(8).len() != canon_name(46).len());
        } else if j == 9 {
            assert(canon_name(9).len() != canon_name(46).len());
        } else if j == 10 {
            assert(canon_name(10).len() != canon_name(46).len());
        } else if j == 11 {
            assert(canon_name(11).len() != canon_name(46).len());
        } else if j == 12 {
            assert(canon_name(12).len() != canon_name(46).len());
        } else if j == 13 {
            assert(canon_name(13).len() != canon_name(46).len());
        } else if j == 14 {
            assert(canon_name(14).len() != canon_name(46).len());
        } else if j == 15 {
            assert(canon_name(15).len() != canon_name(46).len());
        } else if j == 16 {
            assert(canon_name(16).len() != canon_name(46).len());
        } else if j == 17 {
            assert(canon_name(17).len() != canon_name(46).len());
        } else if j == 18 {
            assert(canon_name(18).len() != canon_name(46).len());
        } else if j == 19 {
            assert(canon_name(19).len() != canon_name(46).len());
        } else if j == 20 {
            assert(canon_name(20)[0] != canon_name(46)[0]);
        } else if j == 21 {
            assert(canon_name(21).len() != canon_name(46).len());
        } else if j == 22 {
            assert(canon_name(22).len() != canon_name(46).len());
        } else if j == 23 {
            assert(canon_name(23).len() != canon_name(46).len());
        } else if j == 24 {
            assert(canon_name(24)[0] != canon_name(46)[0]);
        } else if j == 25 {
            assert(canon_name(25).len() != canon_name(46).len());
        } else if j == 26 {
            assert(canon_name(26).len() != canon_name(46).len());
        } else if j == 27 {
            assert(canon_name(27).len() != canon_name(46).len());
        } else if j == 28 {
            assert(canon_name(28).len() != canon_name(46).len());
        } else if j == 29 {
            assert(canon_name(29).len() != canon_name(46).len());
        } else if j == 30 {
            assert(canon_name(30).len() != canon_name(46).len());
        } else if j == 31 {
            assert(canon_name(31).len() != canon_name(46).len());
        } else if j == 32 {
            assert(canon_name(32).len() != canon_name(46).len());
        } else if j == 33 {
            assert(canon_name(33).len() != canon_name(46).len());
        } else if j == 34 {
            assert(canon_name(34).len() != canon_name(46).len());
        } else if j == 35 {
            assert(canon_name(35).len() != canon_name(46).len());
        } else if j == 36 {
            assert(canon_name(36).len() != canon_name(46).len());
        } else if j == 37 {
            assert(canon_name(37).len() != canon_name(46).len());
        } else if j == 38 {
            assert(canon_name(38).len() != canon_name(46).len());
        } else if j == 39 {
            assert(canon_name(39).len() != canon_name(46).len());
        } else if j == 40 {
            assert(canon_name(40).len() != canon_name(46).len());
        } else if j == 41 {
            assert(canon_name(41).len() != canon_name(46).len());
        } else if j == 42 {
            assert(canon_name(42).len() != canon_name(46).len());
        } else if j == 43 {
            assert(canon_name(43).len() != canon_name(46).len());
        } else if j == 44 {
            assert(canon_name(44).len() != canon_name(46).len());
        } else if j == 45 {
            assert(canon_name(45)[0] != canon_name(46)[0]);
        }
    }
}

proof fn lemma_canon_name_new_47()
    ensures
        forall|j: int| 0 <= j < 47 ==> #[trigger] canon_name(j) != canon_name(47),
{
    assert forall|j: int| 0 <= j < 47 implies #[trigger] canon_name(j) != canon_name(47) by {
        if j == 0 {
            assert(canon_name(0).len() != canon_name(47).len());
        } else if j == 1 {
            assert(canon_name(1).len() != canon_name(47).len());
        } else if j == 2 {
            assert(canon_name(2)[0] != canon_name(47)[0]);
        } else if j == 3 {
            assert(canon_name(3).len() != canon_name(47).len());
        } else if j == 4 {
            assert(canon_name(4).len() != canon_name(47).len());
        } else if j == 5 {
            assert(canon_name(5).len() != canon_name(47).len());
        } else if j == 6 {
            assert(canon_name(6).len() != canon_name(47).len());
        } else if j == 7 {
            assert(canon_name(7).len() != canon_name(47).len());
        } else if j == 8 {
            assert(canon_name(8).len() != canon_name(47).len());
        } else if j == 9 {
            assert(canon_name(9).len() != canon_name(47).len());
        } else if j == 10 {
            assert(canon_name(10).len() != canon_name(47).len());
        } else if j == 11 {
            assert(canon_name(11).len() != canon_name(47).len());
        } else if j == 12 {
            assert(canon_name(12).len() != canon_name(47).len());
        } else if j == 13 {
            assert(canon_name(13).len() != canon_name(47).len());
        } else if j == 14 {
            assert(canon_name(14).len() != canon_name(47).len());
        } else if j == 15 {
            assert(canon_name(15).len() != canon_name(47).len());
        } else if j == 16 {
            assert(canon_name(16).len() != canon_name(47).len());
        } else if j == 17 {
            assert(canon_name(17).len() != canon_name(47).len());
        } else if j == 18 {
            assert(canon_name(18).len() != canon_name(47).len());
        } else if j == 19 {
            assert(canon_name(19).len() != canon_name(47).len());
        } else if j == 20 {
            assert(canon_name(20).len() != canon_name(47).len());
        } else if j == 21 {
            assert(canon_name(21).len() != canon_name(47).len());
        } else if j == 22 {
            assert(canon_name(22).len() != canon_name(47).len());
        } else if j == 23 {
            assert(canon_name(23).len() != canon_name(47).len());
        } else if j == 24 {
            assert(canon_name(24).len() != canon_name(47).len());
        } else if j == 25 {
            assert(canon_name(25).len() != canon_name(47).len());
        } else if j == 26 {
            assert(canon_name(26).len() != canon_name(47).len());
        } else if j == 27 {
            assert(canon_name(27).len() != canon_name(47).len());
        } else if j == 28 {
            assert(canon_name(28).len() != canon_name(47).len());
        } else if j == 29 {
            assert(canon_name(29).len() != canon_name(47).len());
        } else if j == 30 {
            assert(canon_name(30).len() != canon_name(47).len());
        } else if j == 31 {
            assert(canon_name(31).len() != canon_name(47).len());
        } else if j == 32 {
            assert(canon_name(32).len() != canon_name(47).len());
        } else if j == 33 {
            assert(canon_name(33).len() != canon_name(47).len());
        } else if j == 34 {
            assert(canon_name(34).len() != canon_name(47).len());
        } else if j == 35 {
            assert(canon_name(35)[0] != canon_name(47)[0]);
        } else if j == 36 {
            assert(canon_name(36).len() != canon_name(47).len());
        } else if j == 37 {
            assert(canon_name(37)[0] != canon_name(47)[0]);
        } else if j == 38 {
            assert(canon_name(38).len() != canon_name(47).len());
        } else if j == 39 {
            assert(canon_name(39).len() != canon_name(47).len());
        } else if j == 40 {
            assert(canon_name(40).len() != canon_name(47).len());
        } else if j == 41 {
            assert(canon_name(41).len() != canon_name(47).len());
        } else if j == 42 {
            assert(canon_name(42).len() != canon_name(47).len());
        } else if j == 43 {
            assert(canon_name(43).len() != canon_name(47).len());
        } else if j == 44 {
            assert(canon_name(44).len() != canon_name(47).len());
        } else if j == 45 {
            assert(canon_name(45).len() != canon_name(47).len());
        } else if j == 46 {
            assert(canon_name(46).len() != canon_name(47).len());
        }
    }
}

proof fn lemma_canon_name_new_48()
    ensures
        forall|j: int| 0 <= j < 48 ==> #[trigger] canon_name(j) != canon_name(48),
{
    assert forall|j: int| 0 <= j < 48 implies #[trigger] canon_name(j) != canon_name(48) by {
        if j == 0 {
            assert(canon_name(0).len() != canon_name(48).len());
        } else if j == 1 {
            assert(canon_name(1).len() != canon_name(48).len());
        } else if j == 2 {
            assert(canon_name(2)[0] != canon_name(48)[0]);
        } else if j == 3 {
            assert(canon_name(3).len() != canon_name(48).len());
        } else if j == 4 {
            assert(canon_name(4).len() != canon_name(48).len());
        } else if j == 5 {
            assert(canon_name(5).len() != canon_name(48).len());
        } else if j == 6 {
            assert(canon_name(6).len() != canon_name(48).len());
        } else if j == 7 {
            assert(canon_name(7).len() != canon_name(48).len());
        } else if j == 8 {
            assert(canon_name(8).len() != canon_name(48).len());
        } else if j == 9 {
            assert(canon_name(9).len() != canon_name(48).len());
        } else if j == 10 {
            assert(canon_name(10).len() != canon_name(48).len());
        } else if j == 11 {
            assert(canon_name(11).len() != canon_name(48).len());
        } else if j == 12 {
            assert(canon_name(12).len() != canon_name(48).len());
        } else if j == 13 {
            assert(canon_name(13).len() != canon_name(48).len());
        } else if j == 14 {
            assert(canon_name(14).len() != canon_name(48).len());
        } else if j == 15 {
            assert(canon_name(15).len() != canon_name(48).len());
        } else if j == 16 {
            assert(canon_name(16).len() != canon_name(48).len());
        } else if j == 17 {
            assert(canon_name(17).len() != canon_name(48).len());
        } else if j == 18 {
            assert(canon_name(18).len() != canon_name(48).len());
        } else if j == 19 {
            assert(canon_name(19).len() != canon_name(48).len());
        } else if j == 20 {
            assert(canon_name(20).len() != canon_name(48).len());
        } else if j == 21 {
            assert(canon_name(21).len() != canon_name(48).len());
        } else if j == 22 {
            assert(canon_name(22).len() != canon_name(48).len());
        } else if j == 23 {
            assert(canon_name(23).len() != canon_name(48).len());
        } else if j == 24 {
            assert(canon_name(24).len() != canon_name(48).len());
        } else if j == 25 {
            assert(canon_name(25).len() != canon_name(48).len());
        } else if j == 26 {
            assert(canon_name(26).len() != canon_name(48).len());
        } else if j == 27 {
            assert(canon_name(27).len() != canon_name(48).len());
        } else if j == 28 {
            assert(canon_name(28).len() != canon_name(48).len());
        } else if j == 29 {
            assert(canon_name(29).len() != canon_name(48).len());
        } else if j == 30 {
            assert(canon_name(30).len() != canon_name(48).len());
        } else if j == 31 {
            assert(canon_name(31).len() != canon_name(48).len());
        } else if j == 32 {
            assert(canon_name(32).len() != canon_name(48).len());
        } else if j == 33 {
            assert(canon_name(33).len() != canon_name(48).len());
        } else if j == 34 {
            assert(canon_name(34).len() != canon_name(48).len());
        } else if j == 35 {
            assert(canon_name(35)[0] != canon_name(48)[0]);
        } else if j == 36 {
            assert(canon_name(36).len() != canon_name(48).len());
        } else if j == 37 {
            assert(canon_name(37)[0] != canon_name(48)[0]);
        } else if j == 38 {
            assert(canon_name(38).len() != canon_name(48).len());
        } else if j == 39 {
            assert(canon_name(39).len() != canon_name(48).len());
        } else if j == 40 {
            assert(canon_name(40).len() != canon_name(48).len());
        } else if j == 41 {
            assert(canon_name(41).len() != canon_name(48).len());
        } else if j == 42 {
            assert(canon_name(42).len() != canon_name(48).len());
        } else if j == 43 {
            assert(canon_name(43).len() != canon_name(48).len());
        } else if j == 44 {
            assert(canon_name(44).len() != canon_name(48).len());
        } else if j == 45 {
            assert(canon_name(45).len() != canon_name(48).len());
        } else if j == 46 {
            assert(canon_name(46).len() != canon_name(48).len());
        } else if j == 47 {
            assert(canon_name(47)[0] != canon_name(48)[0]);
        }
    }
}

proof fn lemma_canon_name_new_49()
    ensures
        forall|j: int| 0 <= j < 49 ==> #[trigger] canon_name(j) != canon_name(49),
{
    assert forall|j: int| 0 <= j < 49 implies #[trigger] canon_name(j) != canon_name(49) by {
        if j == 0 {
            assert(canon_name(0).len() != canon_name(49).len());
        } else if j == 1 {
            assert(canon_name(1).len() != canon_name(49).len());
        } else if j == 2 {
            assert(canon_name(2).len() != canon_name(49).len());
        } else if j == 3 {
            assert(canon_name(3).len() != canon_name(49).len());
        } else if j == 4 {
            assert(canon_name(4)[0] != canon_name(49)[0]);
        } else if j == 5 {
            assert(canon_name(5).len() != canon_name(49).len());
        } else if j == 6 {
            assert(canon_name(6).len() != canon_name(49).len());
        } else if j == 7 {
            assert(canon_name(7).len() != canon_name(49).len());
        } else if j == 8 {
            assert(canon_name(8).len() != canon_name(49).len());
        } else if j == 9 {
            assert(canon_name(9).len() != canon_name(49).len());
        } else if j == 10 {
            assert(canon_name(10).len() != canon_name(49).len());
        } else if j == 11 {
            assert(canon_name(11).len() != canon_name(49).len());
        } else if j == 12 {
            assert(canon_name(12)[0] != canon_name(49)[0]);
        } else if j == 13 {
            assert(canon_name(13)[0] != canon_name(49)[0]);
        } else if j == 14 {
            assert(canon_name(14).len() != canon_name(49).len());
        } else if j == 15 {
            assert(canon_name(15).len() != canon_name(49).len());
        } else if j == 16 {
            assert(canon_name(16).len() != canon_name(49).len());
        } else if j == 17 {
            assert(canon_name(17).len() != canon_name(49).len());
        } else if j == 18 {
            assert(canon_name(18).len() != canon_name(49).len());
        } else if j == 19 {
            assert(canon_name(19).len() != canon_name(49).len());
        } else if j == 20 {
            assert(canon_name(20).len() != canon_name(49).len());
        } else if j == 21 {
            assert(canon_name(21).len() != canon_name(49).len());
        } else if j == 22 {
            assert(canon_name(22).len() != canon_name(49).len());
        } else if j == 23 {
            assert(canon_name(23).len() != canon_name(49).len());
        } else if j == 24 {
            assert(canon_name(24).len() != canon_name(49).len());
        } else if j == 25 {
            assert(canon_name(25).len() != canon_name(49).len());
        } else if j == 26 {
            assert(canon_name(26).len() != canon_name(49).len());
        } else if j == 27 {
            assert(canon_name(27).len() != canon_name(49).len());
        } else if j == 28 {
            assert(canon_name(28).len() != canon_name(49).len());
        } else if j == 29 {
            assert(canon_name(29).len() != canon_name(49).len());
        } else if j == 30 {
            assert(canon_name(30).len() != canon_name(49).len());
        } else if j == 31 {
            assert(canon_name(31).len() != canon_name(49).len());
        } else if j == 32 {
            assert(canon_name(32).len() != canon_name(49).len());
        } else if j == 33 {
            assert(canon_name(33).len() != canon_name(49).len());
        } else if j == 34 {
            assert(canon_name(34).len() != canon_name(49).len());
        } else if j == 35 {
            assert(canon_name(35).len() != canon_name(49).len());
        } else if j == 36 {
            assert(canon_name(36).len() != canon_name(49).len());
        } else if j == 37 {
            assert(canon_name(37).len() != canon_name(49).len());
        } else if j == 38 {
            assert(canon_name(38).len() != canon_name(49).len());
        } else if j == 39 {
            assert(canon_name(39).len() != canon_name(49).len());
        } else if j == 40 {
            assert(canon_name(40).len() != canon_name(49).len());
        } else if j == 41 {
            assert(canon_name(41).len() != canon_name(49).len());
        } else if j == 42 {
            assert(canon_name(42).len() != canon_name(49).len());
        } else if j == 43 {
            assert(canon_name(43).len() != canon_name(49).len());
        } else if j == 44 {
            assert(canon_name(44).len() != canon_name(49).len());
        } else if j == 45 {
            assert(canon_name(45).len() != canon_name(49).len());
        } else if j == 46 {
            assert(canon_name(46).len() != canon_name(49).len());
        } else if j == 47 {
            assert(canon_name(47).len() != canon_name(49).len());
        } else if j == 48 {
            assert(canon_name(48).len() != canon_name(49).len());
        }
    }
}

proof fn lemma_canon_name_new_50()
    ensures
        forall|j: int| 0 <= j < 50 ==> #[trigger] canon_name(j) != canon_name(50),
{
    assert forall|j: int| 0 <= j < 50 implies #[trigger] canon_name(j) != canon_name(50) by {
        if j == 0 {
            assert(canon_name(0).len() != canon_name(50).len());
        } else if j == 1 {
            assert(canon_name(1).len() != canon_name(50).len());
        } else if j == 2 {
            assert(canon_name(2).len() != canon_name(50).len());
        } else if j == 3 {
            assert(canon_name(3).len() != canon_name(50).len());
        } else if j == 4 {
            assert(canon_name(4).len() != canon_name(50).len());
        } else if j == 5 {
            assert(canon_name(5).len() != canon_name(50).len());
        } else if j == 6 {
            assert(canon_name(6).len() != canon_name(50).len());
        } else if j == 7 {
            assert(canon_name(7).len() != canon_name(50).len());
        } else if j == 8 {
            assert(canon_name(8).len() != canon_name(50).len());
        } else if j == 9 {
            assert(canon_name(9).len() != canon_name(50).len());
        } else if j == 10 {
            assert(canon_name(10).len() != canon_name(50).len());
        } else if j == 11 {
            assert(canon_name(11).len() != canon_name(50).len());
        } else if j == 12 {
            assert(canon_name(12).len() != canon_name(50).len());
        } else if j == 13 {
            assert(canon_name(13).len() != canon_name(50).len());
        } else if j == 14 {
            assert(canon_name(14).len() != canon_name(50).len());
        } else if j == 15 {
            assert(canon_name(15).len() != canon_name(50).len());
        } else if j == 16 {
            assert(canon_name(16).len() != canon_name(50).len());
        } else if j == 17 {
            assert(canon_name(17).len() != canon_name(50).len());
        } else if j == 18 {
            assert(canon_name(18).len() != canon_name(50).len());
        } else if j == 19 {
            assert(canon_name(19).len() != canon_name(50).len());
        } else if j == 20 {
            assert(canon_name(20).len() != canon_name(50).len());
        } else if j == 21 {
            assert(canon_name(21).len() != canon_name(50).len());
        } else if j == 22 {
            assert(canon_name(22).len() != canon_name(50).len());
        } else if j == 23 {
            assert(canon_name(23).len() != canon_name(50).len());
        } else if j == 24 {
            assert(canon_name(24).len() != canon_name(50).len());
        } else if j == 25 {
            assert(canon_name(25).len() != canon_name(50).len());
        } else if j == 26 {
            assert(canon_name(26).len() != canon_name(50).len());
        } else if j == 27 {
            assert(canon_name(27).len() != canon_name(50).len());
        } else if j == 28 {
            assert(canon_name(28).len() != canon_name(50).len());
        } else if j == 29 {
            assert(canon_name(29).len() != canon_name(50).len());
        } else if j == 30 {
            assert(canon_name(30).len() != canon_name(50).len());
        } else if j == 31 {
            assert(canon_name(31).len() != canon_name(50).len());
        } else if j == 32 {
            assert(canon_name(32).len() != canon_name(50).len());
        } else if j == 33 {
            assert(canon_name(33).len() != canon_name(50).len());
        } else if j == 34 {
            assert(canon_name(34).len() != canon_name(50).len());
        } else if j == 35 {
            assert(canon_name(35).len() != canon_name(50).len());
        } else if j == 36 {
            assert(canon_name(36).len() != canon_name(50).len());
        } else if j == 37 {
            assert(canon_name(37).len() != canon_name(50).len());
        } else if j == 38 {
            assert(canon_name(38).len() != canon_name(50).len());
        } else if j == 39 {
            assert(canon_name(39).len() != canon_name(50).len());
        } else if j == 40 {
            assert(canon_name(40).len() != canon_name(50).len());
        } else if j == 41 {
            assert(canon_name(41).len() != canon_name(50).len());
        } else if j == 42 {
            assert(canon_name(42).len() != canon_name(50).len());
        } else if j == 43 {
            assert(canon_name(43).len() != canon_name(50).len());
        } else if j == 44 {
            assert(canon_name(44).len() != canon_name(50).len());
        } else if j == 45 {
            assert(canon_name(45).len() != canon_name(50).len());
        } else if j == 46 {
            assert(canon_name(46).len() != canon_name(50).len());
        } else if j == 47 {
            assert(canon_name(47).len() != canon_name(50).len());
        } else if j == 48 {
            assert(canon_name(48).len() != canon_name(50).len());
        } else if j == 49 {
            assert(canon_name(49).len() != canon_name(50).len());
        }
    }
}

proof fn lemma_canon_name_new_51()
    ensures
        forall|j: int| 0 <= j < 51 ==> #[trigger] canon_name(j) != canon_name(51),
{
    assert forall|j: int| 0 <= j < 51 implies #[trigger] canon_name(j) != canon_name(51) by {
        if j == 0 {
            assert(canon_name(0).len() != canon_name(51).len());
        } else if j == 1 {
            assert(canon_name(1).len() != canon_name(51).len());
        } else if j == 2 {
            assert(canon_name(2).len() != canon_name(51).len());
        } else if j == 3 {
            assert(canon_name(3).len() != canon_name(51).len());
        } else if j == 4 {
            assert(canon_name(4).len() != canon_name(51).len());
        } else if j == 5 {
            assert(canon_name(5).len() != canon_name(51).len());
        } else if j == 6 {
            assert(canon_name(6).len() != canon_name(51).len());
        } else if j == 7 {
            assert(canon_name(7).len() != canon_name(51).len());
        } else if j == 8 {
            assert(canon_name(8).len() != canon_name(51).len());
        } else if j == 9 {
            assert(canon_name(9).len() != canon_name(51).len());
        } else if j == 10 {
            assert(canon_name(10).len() != canon_name(51).len());
        } else if j == 11 {
            assert(canon_name(11).len() != canon_name(51).len());
        } else if j == 12 {
            assert(canon_name(12).len() != canon_name(51).len());
        } else if j == 13 {
            assert(canon_name(13).len() != canon_name(51).len());
        } else if j == 14 {
            assert(canon_name(14).len() != canon_name(51).len());
        } else if j == 15 {
            assert(canon_name(15).len() != canon_name(51).len());
        } else if j == 16 {
            assert(canon_name(16).len() != canon_name(51).len());
        } else if j == 17 {
            assert(canon_name(17).len() != canon_name(51).len());
        } else if j == 18 {
            assert(canon_name(18).len() != canon_name(51).len());
        } else if j == 19 {
            assert(canon_name(19).len() != canon_name(51).len());
        } else if j == 20 {
            assert(canon_name(20).len() != canon_name(51).len());
        } else if j == 21 {
            assert(canon_name(21).len() != canon_name(51).len());
        } else if j == 22 {
            assert(canon_name(22).len() != canon_name(51).len());
        } else if j == 23 {
            assert(canon_name(23).len() != canon_name(51).len());
        } else if j == 24 {
            assert(canon_name(24).len() != canon_name(51).len());
        } else if j == 25 {
            assert(canon_name(25).len() != canon_name(51).len());
        } else if j == 26 {
            assert(canon_name(26).len() != canon_name(51).len());
        } else if j == 27 {
            assert(canon_name(27).len() != canon_name(51).len());
        } else if j == 28 {
            assert(canon_name(28).len() != canon_name(51).len());
        } else if j == 29 {
            assert(canon_name(29).len() != canon_name(51).len());
        } else if j == 30 {
            assert(canon_name(30).len() != canon_name(51).len());
        } else if j == 31 {
            assert(canon_name(31).len() != canon_name(51).len());
        } else if j == 32 {
            assert(canon_name(32).len() != canon_name(51).len());
        } else if j == 33 {
            assert(canon_name(33).len() != canon_name(51).len());
        } else if j == 34 {
            assert(canon_name(34).len() != canon_name(51).len());
        } else if j == 35 {
            assert(canon_name(35).len() != canon_name(51).len());
        } else if j == 36 {
            assert(canon_name(36).len() != canon_name(51).len());
        } else if j == 37 {
            assert(canon_name(37).len() != canon_name(51).len());
        } else if j == 38 {
            assert(canon_name(38).len() != canon_name(51).len());
        } else if j == 39 {
            assert(canon_name(39).len() != canon_name(51).len());
        } else if j == 40 {
            assert(canon_name(40).len() != canon_name(51).len());
        } else if j == 41 {
            assert(canon_name(41).len() != canon_name(51).len());
        } else if j == 42 {
            assert(canon_name(42).len() != canon_name(51).len());
        } else if j == 43 {
            assert(canon_name(43).len() != canon_name(51).len());
        } else if j == 44 {
            assert(canon_name(44).len() != canon_name(51).len());
        } else if j == 45 {
            assert(canon_name(45).len() != canon_name(51).len());
        } else if j == 46 {
            assert(canon_name(46).len() != canon_name(51).len());
        } else if j == 47 {
            assert(canon_name(47).len() != canon_name(51).len());
        } else if j == 48 {
            assert(canon_name(48).len() != canon_name(51).len());
        } else if j == 49 {
            assert(canon_name(49).len() != canon_name(51).len());
        } else if j == 50 {
            assert(canon_name(50).len() != canon_name(51).len());
        }
    }
}

proof fn lemma_canon_name_new_52()
    ensures
        forall|j: int| 0 <= j < 52 ==> #[trigger] canon_name(j) != canon_name(52),
{
    assert forall|j: int| 0 <= j < 52 implies #[trigger] canon_name(j) != canon_name(52) by {
        if j == 0 {
            assert(canon_name(0).len() != canon_name(52).len());
        } else if j == 1 {
            assert(canon_name(1).len() != canon_name(52).len());
        } else if j == 2 {
            assert(canon_name(2).len() != canon_name(52).len());
        } else if j == 3 {
            assert(canon_name(3).len() != canon_name(52).len());
        } else if j == 4 {
            assert(canon_name(4).len() != canon_name(52).len());
        } else if j == 5 {
            assert(canon_name(5).len() != canon_name(52).len());
        } else if j == 6 {
            assert(canon_name(6).len() != canon_name(52).len());
        } else if j == 7 {
            assert(canon_name(7).len() != canon_name(52).len());
        } else if j == 8 {
            assert(canon_name(8).len() != canon_name(52).len());
        } else if j == 9 {
            assert(canon_name(9).len() != canon_name(52).len());
        } else if j == 10 {
            assert(canon_name(10).len() != canon_name(52).len());
        } else if j == 11 {
            assert(canon_name(11).len() != canon_name(52).len());
        } else if j == 12 {
            assert(canon_name(12).len() != canon_name(52).len());
        } else if j == 13 {
            assert(canon_name(13).len() != canon_name(52).len());
        } else if j == 14 {
            assert(canon_name(14).len() != canon_name(52).len());
        } else if j == 15 {
            assert(canon_name(15).len() != canon_name(52).len());
        } else if j == 16 {
            assert(canon_name(16).len() != canon_name(52).len());
        } else if j == 17 {
            assert(canon_name(17).len() != canon_name(52).len());
        } else if j == 18 {
            assert(canon_name(18).len() != canon_name(52).len());
        } else if j == 19 {
            assert(canon_name(19).len() != canon_name(52).len());
        } else if j == 20 {
            assert(canon_name(20).len() != canon_name(52).len());
        } else if j == 21 {
            assert(canon_name(21).len() != canon_name(52).len());
        } else if j == 22 {
            assert(canon_name(22).len() != canon_name(52).len());
        } else if j == 23 {
            assert(canon_name(23).len() != canon_name(52).len());
        } else if j == 24 {
            assert(canon_name(24).len() != canon_name(52).len());
        } else if j == 25 {
            assert(canon_name(25).len() != canon_name(52).len());
        } else if j == 26 {
            assert(canon_name(26).len() != canon_name(52).len());
        } else if j == 27 {
            assert(canon_name(27).len() != canon_name(52).len());
        } else if j == 28 {
            assert(canon_name(28).len() != canon_name(52).len());
        } else if j == 29 {
            assert(canon_name(29).len() != canon_name(52).len());
        } else if j == 30 {
            assert(canon_name(30).len() != canon_name(52).len());
        } else if j == 31 {
            assert(canon_name(31).len() != canon_name(52).len());
        } else if j == 32 {
            assert(canon_name(32).len() != canon_name(52).len());
        } else if j == 33 {
            assert(canon_name(33).len() != canon_name(52).len());
        } else if j == 34 {
            assert(canon_name(34).len() != canon_name(52).len());
        } else if j == 35 {
            assert(canon_name(35).len() != canon_name(52).len());
        } else if j == 36 {
            assert(canon_name(36).len() != canon_name(52).len());
        } else if j == 37 {
            assert(canon_name(37).len() != canon_name(52).len());
        } else if j == 38 {
            assert(canon_name(38).len() != canon_name(52).len());
        } else if j == 39 {
            assert(canon_name(39).len() != canon_name(52).len());
        } else if j == 40 {
            assert(canon_name(40).len() != canon_name(52).len());
        } else if j == 41 {
            assert(canon_name(41).len() != canon_name(52).len());
        } else if j == 42 {
            assert(canon_name(42).len() != canon_name(52).len());
        } else if j == 43 {
            assert(canon_name(43).len() != canon_name(52).len());
        } else if j == 44 {
            assert(canon_name(44).len() != canon_name(52).len());
        } else if j == 45 {
            assert(canon_name(45).len() != canon_name(52).len());
        } else if j == 46 {
            assert(canon_name(46).len() != canon_name(52).len());
        } else if j == 47 {
            assert(canon_name(47).len() != canon_name(52).len());
        } else if j == 48 {
            assert(canon_name(48).len() != canon_name(52).len());
        } else if j == 49 {
            assert(canon_name(49).len() != canon_name(52).len());
        } else if j == 50 {
            assert(canon_name(50).len() != canon_name(52).len());
        } else if j == 51 {
            assert(canon_name(51)[0] != canon_name(52)[0]);
        }
    }
}

proof fn lemma_canon_name_new_53()
    ensures
        forall|j: int| 0 <= j < 53 ==> #[trigger] canon_name(j) != canon_name(53),
{
    assert forall|j: int| 0 <= j < 53 implies #[trigger] canon_name(j) != canon_name(53) by {
        if j == 0 {
            assert(canon_name(0).len() != canon_name(53).len());
        } else if j == 1 {
            assert(canon_name(1).len() != canon_name(53).len());
        } else if j == 2 {
            assert(canon_name(2).len() != canon_name(53).len());
        } else if j == 3 {
            assert(canon_name(3).len() != canon_name(53).len());
        } else if j == 4 {
            assert(canon_name(4).len() != canon_name(53).len());
        } else if j == 5 {
            assert(canon_name(5).len() != canon_name(53).len());
        } else if j == 6 {
            assert(canon_name(6).len() != canon_name(53).len());
        } else if j == 7 {
            assert(canon_name(7).len() != canon_name(53).len());
        } else if j == 8 {
            assert(canon_name(8).len() != canon_name(53).len());
        } else if j == 9 {
            assert(canon_name(9).len() != canon_name(53).len());
        } else if j == 10 {
            assert(canon_name(10).len() != canon_name(53).len());
        } else if j == 11 {
            assert(canon_name(11).len() != canon_name(53).len());
        } else if j == 12 {
            assert(canon_name(12).len() != canon_name(53).len());
        } else if j == 13 {
            assert(canon_name(13).len() != canon_name(53).len());
        } else if j == 14 {
            assert(canon_name(14).len() != canon_name(53).len());
        } else if j == 15 {
            assert(canon_name(15)[0] != canon_name(53)[0]);
        } else if j == 16 {
            assert(canon_name(16).len() != canon_name(53).len());
        } else if j == 17 {
            assert(canon_name(17).len() != canon_name(53).len());
        } else if j == 18 {
            assert(canon_name(18).len() != canon_name(53).len());
        } else if j == 19 {
            assert(canon_name(19)[0] != canon_name(53)[0]);
        } else if j == 20 {
            assert(canon_name(20).len() != canon_name(53).len());
        } else if j == 21 {
            assert(canon_name(21).len() != canon_name(53).len());
        } else if j == 22 {
            assert(canon_name(22).len() != canon_name(53).len());
        } else if j == 23 {
            assert(canon_name(23)[0] != canon_name(53)[0]);
        } else if j == 24 {
            assert(canon_name(24).len() != canon_name(53).len());
        } else if j == 25 {
            assert(canon_name(25).len() != canon_name(53).len());
        } else if j == 26 {
            assert(canon_name(26).len() != canon_name(53).len());
        } else if j == 27 {
            assert(canon_name(27).len() != canon_name(53).len());
        } else if j == 28 {
            assert(canon_name(28).len() != canon_name(53).len());
        } else if j == 29 {
            assert(canon_name(29).len() != canon_name(53).len());
        } else if j == 30 {
            assert(canon_name(30).len() != canon_name(53).len());
        } else if j == 31 {
            assert(canon_name(31).len() != canon_name(53).len());
        } else if j == 32 {
            assert(canon_name(32).len() != canon_name(53).len());
        } else if j == 33 {
            assert(canon_name(33).len() != canon_name(53).len());
        } else if j == 34 {
            assert(canon_name(34)[0] != canon_name(53)[0]);
        } else if j == 35 {
            assert(canon_name(35).len() != canon_name(53).len());
        } else if j == 36 {
            assert(canon_name(36).len() != canon_name(53).len());
        } else if j == 37 {
            assert(canon_name(37).len() != canon_name(53).len());
        } else if j == 38 {
            assert(canon_name(38).len() != canon_name(53).len());
        } else if j == 39 {
            assert(canon_name(39).len() != canon_name(53).len());
        } else if j == 40 {
            assert(canon_name(40).len() != canon_name(53).len());
        } else if j == 41 {
            assert(canon_name(41).len() != canon_name(53).len());
        } else if j == 42 {
            assert(canon_name(42).len() != canon_name(53).len());
        } else if j == 43 {
            assert(canon_name(43).len() != canon_name(53).len());
        } else if j == 44 {
            assert(canon_name(44).len() != canon_name(53).len());
        } else if j == 45 {
            assert(canon_name(45).len() != canon_name(53).len());
        } else if j == 46 {
            assert(canon_name(46).len() != canon_name(53).len());
        } else if j == 47 {
            assert(canon_name(47).len() != canon_name(53).len());
        } else if j == 48 {
            assert(canon_name(48).len() != canon_name(53).len());
        } else if j == 49 {
            assert(canon_name(49).len() != canon_name(53).len());
        } else if j == 50 {
            assert(canon_name(50).len() != canon_name(53).len());
        } else if j == 51 {
            assert(canon_name(51).len() != canon_name(53).len());
        } else if j == 52 {
            assert(canon_name(52).len() != canon_name(53).len());
        }
    }
}

proof fn lemma_canon_name_new_54()
    ensures
        forall|j: int| 0 <= j < 54 ==> #[trigger] canon_name(j) != canon_name(54),
{
    assert forall|j: int| 0 <= j < 54 implies #[trigger] canon_name(j) != canon_name(54) by {
        if j == 0 {
            assert(canon_name(0).len() != canon_name(54).len());
        } else if j == 1 {
            assert(canon_name(1).len() != canon_name(54).len());
        } else if j == 2 {
            assert(canon_name(2).len() != canon_name(54).len());
        } else if j == 3 {
            assert(canon_name(3).len() != canon_name(54).len());
        } else if j == 4 {
            assert(canon_name(4).len() != canon_name(54).len());
        } else if j == 5 {
            assert(canon_name(5).len() != canon_name(54).len());
        } else if j == 6 {
            assert(canon_name(6).len() != canon_name(54).len());
        } else if j == 7 {
            assert(canon_name(7).len() != canon_name(54).len());
        } else if j == 8 {
            assert(canon_name(8).len() != canon_name(54).len());
        } else if j == 9 {
            assert(canon_name(9).len() != canon_name(54).len());
        } else if j == 10 {
            assert(canon_name(10).len() != canon_name(54).len());
        } else if j == 11 {
            assert(canon_name(11).len() != canon_name(54).len());
        } else if j == 12 {
            assert(canon_name(12).len() != canon_name(54).len());
        } else if j == 13 {
            assert(canon_name(13).len() != canon_name(54).len());
        } else if j == 14 {
            assert(canon_name(14).len() != canon_name(54).len());
        } else if j == 15 {
            assert(canon_name(15)[0] != canon_name(54)[0]);
        } else if j == 16 {
            assert(canon_name(16).len() != canon_name(54).len());
        } else if j == 17 {
            assert(canon_name(17).len() != canon_name(54).len());
        } else if j == 18 {
            assert(canon_name(18).len() != canon_name(54).len());
        } else if j == 19 {
            assert(canon_name(19)[0] != canon_name(54)[0]);
        } else if j == 20 {
            assert(canon_name(20).len() != canon_name(54).len());
        } else if j == 21 {
            assert(canon_name(21).len() != canon_name(54).len());
        } else if j == 22 {
            assert(canon_name(22).len() != canon_name(54).len());
        } else if j == 23 {
            assert(canon_name(23)[0] != canon_name(54)[0]);
        } else if j == 24 {
            assert(canon_name(24).len() != canon_name(54).len());
        } else if j == 25 {
            assert(canon_name(25).len() != canon_name(54).len());
        } else if j == 26 {
            assert(canon_name(26).len() != canon_name(54).len());
        } else if j == 27 {
            assert(canon_name(27).len() != canon_name(54).len());
        } else if j == 28 {
            assert(canon_name(28).len() != canon_name(54).len());
        } else if j == 29 {
            assert(canon_name(29).len() != canon_name(54).len());
        } else if j == 30 {
            assert(canon_name(30).len() != canon_name(54).len());
        } else if j == 31 {
            assert(canon_name(31).len() != canon_name(54).len());
        } else if j == 32 {
            assert(canon_name(32).len() != canon_name(54).len());
        } else if j == 33 {
            assert(canon_name(33).len() != canon_name(54).len());
        } else if j == 34 {
            assert(canon_name(34)[0] != canon_name(54)[0]);
        } else if j == 35 {
            assert(canon_name(35).len() != canon_name(54).len());
        } else if j == 36 {
            assert(canon_name(36).len() != canon_name(54).len());
        } else if j == 37 {
            assert(canon_name(37).len() != canon_name(54).len());
        } else if j == 38 {
            assert(canon_name(38).len() != canon_name(54).len());
        } else if j == 39 {
            assert(canon_name(39).len() != canon_name(54).len());
        } else if j == 40 {
            assert(canon_name(40).len() != canon_name(54).len());
        } else if j == 41 {
            assert(canon_name(41).len() != canon_name(54).len());
        } else if j == 42 {
            assert(canon_name(42).len() != canon_name(54).len());
        } else if j == 43 {
            assert(canon_name(43).len() != canon_name(54).len());
        } else if j == 44 {
            assert(canon_name(44).len() != canon_name(54).len());
        } else if j == 45 {
            assert(canon_name(45).len() != canon_name(54).len());
        } else if j == 46 {
            assert(canon_name(46).len() != canon_name(54).len());
        } else if j == 47 {
            assert(canon_name(47).len() != canon_name(54).len());
        } else if j == 48 {
            assert(canon_name(48).len() != canon_name(54).len());
        } else if j == 49 {
            assert(canon_name(49).len() != canon_name(54).len());
        } else if j == 50 {
            assert(canon_name(50).len() != canon_name(54).len());
        } else if j == 51 {
            assert(canon_name(51).len() != canon_name(54).len());
        } else if j == 52 {
            assert(canon_name(52).len() != canon_name(54).len());
        } else if j == 53 {
            assert(canon_name(53)[0] != canon_name(54)[0]);
        }
    }
}

proof fn lemma_canon_name_new_55()
    ensures
        forall|j: int| 0 <= j < 55 ==> #[trigger] canon_name(j) != canon_name(55),
{
    assert forall|j: int| 0 <= j < 55 implies #[trigger] canon_name(j) != canon_name(55) by {
        if j == 0 {
            assert(canon_name(0).len() != canon_name(55).len());
        } else if j == 1 {
            assert(canon_name(1).len() != canon_name(55).len());
        } else if j == 2 {
            assert(canon_name(2).len() != canon_name(55).len());
        } else if j == 3 {
            assert(canon_name(3).len() != canon_name(55).len());
        } else if j == 4 {
            assert(canon_name(4).len() != canon_name(55).len());
        } else if j == 5 {
            assert(canon_name(5).len() != canon_name(55).len());
        } else if j == 6 {
            assert(canon_name(6).len() != canon_name(55).len());
        } else if j == 7 {
            assert(canon_name(7).len() != canon_name(55).len());
        } else if j == 8 {
            assert(canon_name(8).len() != canon_name(55).len());
        } else if j == 9 {
            assert(canon_name(9).len() != canon_name(55).len());
        } else if j == 10 {
            assert(canon_name(10).len() != canon_name(55).len());
        } else if j == 11 {
            assert(canon_name(11).len() != canon_name(55).len());
        } else if j == 12 {
            assert(canon_name(12).len() != canon_name(55).len());
        } else if j == 13 {
            assert(canon_name(13).len() != canon_name(55).len());
        } else if j == 14 {
            assert(canon_name(14).len() != canon_name(55).len());
        } else if j == 15 {
            assert(canon_name(15).len() != canon_name(55).len());
        } else if j == 16 {
            assert(canon_name(16).len() != canon_name(55).len());
        } else if j == 17 {
            assert(canon_name(17).len() != canon_name(55).len());
        } else if j == 18 {
            assert(canon_name(18).len() != canon_name(55).len());
        } else if j == 19 {
            assert(canon_name(19).len() != canon_name(55).len());
        } else if j == 20 {
            assert(canon_name(20).len() != canon_name(55).len());
        } else if j == 21 {
            assert(canon_name(21).len() != canon_name(55).len());
        } else if j == 22 {
            assert(canon_name(22).len() != canon_name(55).len());
        } else if j == 23 {
            assert(canon_name(23).len() != canon_name(55).len());
        } else if j == 24 {
            assert(canon_name(24).len() != canon_name(55).len());
        } else if j == 25 {
            assert(canon_name(25).len() != canon_name(55).len());
        } else if j == 26 {
            assert(canon_name(26).len() != canon_name(55).len());
        } else if j == 27 {
            assert(canon_name(27)[0] != canon_name(55)[0]);
        } else if j == 28 {
            assert(canon_name(28).len() != canon_name(55).len());
        } else if j == 29 {
            assert(canon_name(29).len() != canon_name(55).len());
        } else if j == 30 {
            assert(canon_name(30).len() != canon_name(55).len());
        } else if j == 31 {
            assert(canon_name(31)[0] != canon_name(55)[0]);
        } else if j == 32 {
            assert(canon_name(32)[0] != canon_name(55)[0]);
        } else if j == 33 {
            assert(canon_name(33)[0] != canon_name(55)[0]);
        } else if j == 34 {
            assert(canon_name(34).len() != canon_name(55).len());
        } else if j == 35 {
            assert(canon_name(35).len() != canon_name(55).len());
        } else if j == 36 {
            assert(canon_name(36).len() != canon_name(55).len());
        } else if j == 37 {
            assert(canon_name(37).len() != canon_name(55).len());
        } else if j == 38 {
            assert(canon_name(38).len() != canon_name(55).len());
        } else if j == 39 {
            assert(canon_name(39).len() != canon_name(55).len());
        } else if j == 40 {
            assert(canon_name(40).len() != canon_name(55).len());
        } else if j == 41 {
            assert(canon_name(41).len() != canon_name(55).len());
        } else if j == 42 {
            assert(canon_name(42).len() != canon_name(55).len());
        } else if j == 43 {
            assert(canon_name(43).len() != canon_name(55).len());
        } else if j == 44 {
            assert(canon_name(44).len() != canon_name(55).len());
        } else if j == 45 {
            assert(canon_name(45).len() != canon_name(55).len());
        } else if j == 46 {
            assert(canon_name(46).len() != canon_name(55).len());
        } else if j == 47 {
            assert(canon_name(47).len() != canon_name(55).len());
        } else if j == 48 {
            assert(canon_name(48).len() != canon_name(55).len());
        } else if j == 49 {
            assert(canon_name(49).len() != canon_name(55).len());
        } else if j == 50 {
            assert(canon_name(50).len() != canon_name(55).len());
        } else if j == 51 {
            assert(canon_name(51).len() != canon_name(55).len());
        } else if j == 52 {
            assert(canon_name(52).len() != canon_name(55).len());
        } else if j == 53 {
            assert(canon_name(53).len() != canon_name(55).len());
        } else if j == 54 {
            assert(canon_name(54).len() != canon_name(55).len());
        }
    }
}

proof fn lemma_canon_name_new_56()
    ensures
        forall|j: int| 0 <= j < 56 ==> #[trigger] canon_name(j) != canon_name(56),
{
    assert forall|j: int| 0 <= j < 56 implies #[trigger] canon_name(j) != canon_name(56) by {
        if j == 0 {
            assert(canon_name(0).len() != canon_name(56).len());
        } else if j == 1 {
            assert(canon_name(1).len() != canon_name(56).len());
        } else if j == 2 {
            assert(canon_name(2).len() != canon_name(56).len());
        } else if j == 3 {
            assert(canon_name(3).len() != canon_name(56).len());
        } else if j == 4 {
            assert(canon_name(4).len() != canon_name(56).len());
        } else if j == 5 {
            assert(canon_name(5).len() != canon_name(56).len());
        } else if j == 6 {
            assert(canon_name(6).len() != canon_name(56).len());
        } else if j == 7 {
            assert(canon_name(7).len() != canon_name(56).len());
        } else if j == 8 {
            assert(canon_name(8).len() != canon_name(56).len());
        } else if j == 9 {
            assert(canon_name(9).len() != canon_name(56).len());
        } else if j == 10 {
            assert(canon_name(10).len() != canon_name(56).len());
        } else if j == 11 {
            assert(canon_name(11).len() != canon_name(56).len());
        } else if j == 12 {
            assert(canon_name(12).len() != canon_name(56).len());
        } else if j == 13 {
            assert(canon_name(13).len() != canon_name(56).len());
        } else if j == 14 {
            assert(canon_name(14).len() != canon_name(56).len());
        } else if j == 15 {
            assert(canon_name(15)[0] != canon_name(56)[0]);
        } else if j == 16 {
            assert(canon_name(16).len() != canon_name(56).len());
        } else if j == 17 {
            assert(canon_name(17).len() != canon_name(56).len());
        } else if j == 18 {
            assert(canon_name(18).len() != canon_name(56).len());
        } else if j == 19 {
            assert(canon_name(19)[1] != canon_name(56)[1]);
        } else if j == 20 {
            assert(canon_name(20).len() != canon_name(56).len());
        } else if j == 21 {
            assert(canon_name(21).len() != canon_name(56).len());
        } else if j == 22 {
            assert(canon_name(22).len() != canon_name(56).len());
        } else if j == 23 {
            assert(canon_name(23)[0] != canon_name(56)[0]);
        } else if j == 24 {
            assert(canon_name(24).len() != canon_name(56).len());
        } else if j == 25 {
            assert(canon_name(25).len() != canon_name(56).len());
        } else if j == 26 {
            assert(canon_name(26).len() != canon_name(56).len());
        } else if j == 27 {
            assert(canon_name(27).len() != canon_name(56).len());
        } else if j == 28 {
            assert(canon_name(28).len() != canon_name(56).len());
        } else if j == 29 {
            assert(canon_name(29).len() != canon_name(56).len());
        } else if j == 30 {
            assert(canon_name(30).len() != canon_name(56).len());
        } else if j == 31 {
            assert(canon_name(31).len() != canon_name(56).len());
        } else if j == 32 {
            assert(canon_name(32).len() != canon_name(56).len());
        } else if j == 33 {
            assert(canon_name(33).len() != canon_name(56).len());
        } else if j == 34 {
            assert(canon_name(34)[0] != canon_name(56)[0]);
        } else if j == 35 {
            assert(canon_name(35).len() != canon_name(56).len());
        } else if j == 36 {
            assert(canon_name(36).len() != canon_name(56).len());
        } else if j == 37 {
            assert(canon_name(37).len() != canon_name(56).len());
        } else if j == 38 {
            assert(canon_name(38).len() != canon_name(56).len());
        } else if j == 39 {
            assert(canon_name(39).len() != canon_name(56).len());
        } else if j == 40 {
            assert(canon_name(40).len() != canon_name(56).len());
        } else if j == 41 {
            assert(canon_name(41).len() != canon_name(56).len());
        } else if j == 42 {
            assert(canon_name(42).len() != canon_name(56).len());
        } else if j == 43 {
            assert(canon_name(43).len() != canon_name(56).len());
        } else if j == 44 {
            assert(canon_name(44).len() != canon_name(56).len());
        } else if j == 45 {
            assert(canon_name(45).len() != canon_name(56).len());
        } else if j == 46 {
            assert(canon_name(46).len() != canon_name(56).len());
        } else if j == 47 {
            assert(canon_name(47).len() != canon_name(56).len());
        } else if j == 48 {
            assert(canon_name(48).len() != canon_name(56).len());
        } else if j == 49 {
            assert(canon_name(49).len() != canon_name(56).len());
        } else if j == 50 {
            assert(canon_name(50).len() != canon_name(56).len());
        } else if j == 51 {
            assert(canon_name(51).len() != canon_name(56).len());
        } else if j == 52 {
            assert(canon_name(52).len() != canon_name(56).len());
        } else if j == 53 {
            assert(canon_name(53)[0] != canon_name(56)[0]);
        } else if j == 54 {
            assert(canon_name(54)[0] != canon_name(56)[0]);
        } else if j == 55 {
            assert(canon_name(55).len() != canon_name(56).len());
        }
    }
}

proof fn lemma_canon_name_new_57()
    ensures
        forall|j: int| 0 <= j < 57 ==> #[trigger] canon_name(j) != canon_name(57),
{
    assert forall|j: int| 0 <= j < 57 implies #[trigger] canon_name(j) != canon_name(57) by {
        if j == 0 {
            assert(canon_name(0)[0] != canon_name(57)[0]);
        } else if j == 1 {
            assert(canon_name(1).len() != canon_name(57).len());
        } else if j == 2 {
            assert(canon_name(2).len() != canon_name(57).len());
        } else if j == 3 {
            assert(canon_name(3)[0] != canon_name(57)[0]);
        } else if j == 4 {
            assert(canon_name(4).len() != canon_name(57).len());
        } else if j == 5 {
            assert(canon_name(5).len() != canon_name(57).len());
        } else if j == 6 {
            assert(canon_name(6).len() != canon_name(57).len());
        } else if j == 7 {
            assert(canon_name(7).len() != canon_name(57).len());
        } else if j == 8 {
            assert(canon_name(8)[0] != canon_name(57)[0]);
        } else if j == 9 {
            assert(canon_name(9)[0] != canon_name(57)[0]);
        } else if j == 10 {
            assert(canon_name(10).len() != canon_name(57).len());
        } else if j == 11 {
            assert(canon_name(11).len() != canon_name(57).len());
        } else if j == 12 {
            assert(canon_name(12).len() != canon_name(57).len());
        } else if j == 13 {
            assert(canon_name(13).len() != canon_name(57).len());
        } else if j == 14 {
            assert(canon_name(14).len() != canon_name(57).len());
        } else if j == 15 {
            assert(canon_name(15).len() != canon_name(57).len());
        } else if j == 16 {
            assert(canon_name(16).len() != canon_name(57).len());
        } else if j == 17 {
            assert(canon_name(17).len() != canon_name(57).len());
        } else if j == 18 {
            assert(canon_name(18).len() != canon_name(57).len());
        } else if j == 19 {
            assert(canon_name(19).len() != canon_name(57).len());
        } else if j == 20 {
            assert(canon_name(20).len() != canon_name(57).len());
        } else if j == 21 {
            assert(canon_name(21).len() != canon_name(57).len());
        } else if j == 22 {
            assert(canon_name(22).len() != canon_name(57).len());
        } else if j == 23 {
            assert(canon_name(23).len() != canon_name(57).len());
        } else if j == 24 {
            assert(canon_name(24).len() != canon_name(57).len());
        } else if j == 25 {
            assert(canon_name(25)[0] != canon_name(57)[0]);
        } else if j == 26 {
            assert(canon_name(26).len() != canon_name(57).len());
        } else if j == 27 {
            assert(canon_name(27).len() != canon_name(57).len());
        } else if j == 28 {
            assert(canon_name(28).len() != canon_name(57).len());
        } else if j == 29 {
            assert(canon_name(29).len() != canon_name(57).len());
        } else if j == 30 {
            assert(canon_name(30)[0] != canon_name(57)[0]);
        } else if j == 31 {
            assert(canon_name(31).len() != canon_name(57).len());
        } else if j == 32 {
            assert(canon_name(32).len() != canon_name(57).len());
        } else if j == 33 {
            assert(canon_name(33).len() != canon_name(57).len());
        } else if j == 34 {
            assert(canon_name(34).len() != canon_name(57).len());
        } else if j == 35 {
            assert(canon_name(35).len() != canon_name(57).len());
        } else if j == 36 {
            assert(canon_name(36).len() != canon_name(57).len());
        } else if j == 37 {
            assert(canon_name(37).len() != canon_name(57).len());
        } else if j == 38 {
            assert(canon_name(38)[0] != canon_name(57)[0]);
        } else if j == 39 {
            assert(canon_name(39)[0] != canon_name(57)[0]);
        } else if j == 40 {
            assert(canon_name(40).len() != canon_name(57).len());
        } else if j == 41 {
            assert(canon_name(41).len() != canon_name(57).len());
        } else if j == 42 {
            assert(canon_name(42).len() != canon_name(57).len());
        } else if j == 43 {
            assert(canon_name(43).len() != canon_name(57).len());
        } else if j == 44 {
            assert(canon_name(44).len() != canon_name(57).len());
        } else if j == 45 {
            assert(canon_name(45).len() != canon_name(57).len());
        } else if j == 46 {
            assert(canon_name(46).len() != canon_name(57).len());
        } else if j == 47 {
            assert(canon_name(47).len() != canon_name(57).len());
        } else if j == 48 {
            assert(canon_name(48).len() != canon_name(57).len());
        } else if j == 49 {
            assert(canon_name(49).len() != canon_name(57).len());
        } else if j == 50 {
            assert(canon_name(50).len() != canon_name(57).len());
        } else if j == 51 {
            assert(canon_name(51).len() != canon_name(57).len());
        } else if j == 52 {
            assert(canon_name(52).len() != canon_name(57).len());
        } else if j == 53 {
            assert(canon_name(53).len() != canon_name(57).len());
        } else if j == 54 {
            assert(canon_name(54).len() != canon_name(57).len());
        } else if j == 55 {
            assert(canon_name(55).len() != canon_name(57).len());
        } else if j == 56 {
            assert(canon_name(56).len() != canon_name(57).len());
        }
    }
}

proof fn lemma_canon_name_new_58()
    ensures
        forall|j: int| 0 <= j < 58 ==> #[trigger] canon_name(j) != canon_name(58),
{
    assert forall|j: int| 0 <= j < 58 implies #[trigger] canon_name(j) != canon_name(58) by {
        if j == 0 {
            assert(canon_name(0).len() != canon_name(58).len());
        } else if j == 1 {
            assert(canon_name(1).len() != canon_name(58).len());
        } else if j == 2 {
            assert(canon_name(2).len() != canon_name(58).len());
        } else if j == 3 {
            assert(canon_name(3).len() != canon_name(58).len());
        } else if j == 4 {
            assert(canon_name(4).len() != canon_name(58).len());
        } else if j == 5 {
            assert(canon_name(5).len() != canon_name(58).len());
        } else if j == 6 {
            assert(canon_name(6).len() != canon_name(58).len());
        } else if j == 7 {
            assert(canon_name(7).len() != canon_name(58).len());
        } else if j == 8 {
            assert(canon_name(8).len() != canon_name(58).len());
        } else if j == 9 {
            assert(canon_name(9).len() != canon_name(58).len());
        } else if j == 10 {
            assert(canon_name(10).len() != canon_name(58).len());
        } else if j == 11 {
            assert(canon_name(11).len() != canon_name(58).len());
        } else if j == 12 {
            assert(canon_name(12).len() != canon_name(58).len());
        } else if j == 13 {
            assert(canon_name(13).len() != canon_name(58).len());
        } else if j == 14 {
            assert(canon_name(14).len() != canon_name(58).len());
        } else if j == 15 {
            assert(canon_name(15).len() != canon_name(58).len());
        } else if j == 16 {
            assert(canon_name(16).len() != canon_name(58).len());
        } else if j == 17 {
            assert(canon_name(17).len() != canon_name(58).len());
        } else if j == 18 {
            assert(canon_name(18).len() != canon_name(58).len());
        } else if j == 19 {
            assert(canon_name(19).len() != canon_name(58).len());
        } else if j == 20 {
            assert(canon_name(20).len() != canon_name(58).len());
        } else if j == 21 {
            assert(canon_name(21).len() != canon_name(58).len());
        } else if j == 22 {
            assert(canon_name(22).len() != canon_name(58).len());
        } else if j == 23 {
            assert(canon_name(23).len() != canon_name(58).len());
        } else if j == 24 {
            assert(canon_name(24).len() != canon_name(58).len());
        } else if j == 25 {
            assert(canon_name(25).len() != canon_name(58).len());
        } else if j == 26 {
            assert(canon_name(26).len() != canon_name(58).len());
        } else if j == 27 {
            assert(canon_name(27)[0] != canon_name(58)[0]);
        } else if j == 28 {
            assert(canon_name(28).len() != canon_name(58).len());
        } else if j == 29 {
            assert(canon_name(29).len() != canon_name(58).len());
        } else if j == 30 {
            assert(canon_name(30).len() != canon_name(58).len());
        } else if j == 31 {
            assert(canon_name(31)[1] != canon_name(58)[1]);
        } else if j == 32 {
            assert(canon_name(32)[0] != canon_name(58)[0]);
        } else if j == 33 {
            assert(canon_name(33)[0] != canon_name(58)[0]);
        } else if j == 34 {
            assert(canon_name(34).len() != canon_name(58).len());
        } else if j == 35 {
            assert(canon_name(35).len() != canon_name(58).len());
        } else if j == 36 {
            assert(canon_name(36).len() != canon_name(58).len());
        } else if j == 37 {
            assert(canon_name(37).len() != canon_name(58).len());
        } else if j == 38 {
            assert(canon_name(38).len() != canon_name(58).len());
        } else if j == 39 {
            assert(canon_name(39).len() != canon_name(58).len());
        } else if j == 40 {
            assert(canon_name(40).len() != canon_name(58).len());
        } else if j == 41 {
            assert(canon_name(41).len() != canon_name(58).len());
        } else if j == 42 {
            assert(canon_name(42).len() != canon_name(58).len());
        } else if j == 43 {
            assert(canon_name(43).len() != canon_name(58).len());
        } else if j == 44 {
            assert(canon_name(44).len() != canon_name(58).len());
        } else if j == 45 {
            assert(canon_name(45).len() != canon_name(58).len());
        } else if j == 46 {
            assert(canon_name(46).len() != canon_name(58).len());
        } else if j == 47 {
            assert(canon_name(47).len() != canon_name(58).len());
        } else if j == 48 {
            assert(canon_name(48).len() != canon_name(58).len());
        } else if j == 49 {
            assert(canon_name(49).len() != canon_name(58).len());
        } else if j == 50 {
            assert(canon_name(50).len() != canon_name(58).len());
        } else if j == 51 {
            assert(canon_name(51).len() != canon_name(58).len());
        } else if j == 52 {
            assert(canon_name(52).len() != canon_name(58).len());
        } else if j == 53 {
            assert(canon_name(53).len() != canon_name(58).len());
        } else if j == 54 {
            assert(canon_name(54).len() != canon_name(58).len());
        } else if j == 55 {
            assert(canon_name(55)[0] != canon_name(58)[0]);
        } else if j == 56 {
            assert(canon_name(56).len() != canon_name(58).len());
        } else if j == 57 {
            assert(canon_name(57).len() != canon_name(58).len());
        }
    }
}

proof fn lemma_canon_name_new_59()
    ensures
        forall|j: int| 0 <= j < 59 ==> #[trigger] canon_name(j) != canon_name(59),
{
    assert forall|j: int| 0 <= j < 59 implies #[trigger] canon_name(j) != canon_name(59) by {
        if j == 0 {
            assert(canon_name(0).len() != canon_name(59).len());
        } else if j == 1 {
            assert(canon_name(1)[0] != canon_name(59)[0]);
        } else if j == 2 {
            assert(canon_name(2).len() != canon_name(59).len());
        } else if j == 3 {
            assert(canon_name(3).len() != canon_name(59).len());
        } else if j == 4 {
            assert(canon_name(4).len() != canon_name(59).len());
        } else if j == 5 {
            assert(canon_name(5)[0] != canon_name(59)[0]);
        } else if j == 6 {
            assert(canon_name(6)[0] != canon_name(59)[0]);
        } else if j == 7 {
            assert(canon_name(7).len() != canon_name(59).len());
        } else if j == 8 {
            assert(canon_name(8).len() != canon_name(59).len());
        } else if j == 9 {
            assert(canon_name(9).len() != canon_name(59).len());
        } else if j == 10 {
            assert(canon_name(10)[1] != canon_name(59)[1]);
        } else if j == 11 {
            assert(canon_name(11)[0] != canon_name(59)[0]);
        } else if j == 12 {
            assert(canon_name(12).len() != canon_name(59).len());
        } else if j == 13 {
            assert(canon_name(13).len() != canon_name(59).len());
        } else if j == 14 {
            assert(canon_name(14).len() != canon_name(59).len());
        } else if j == 15 {
            assert(canon_name(15).len() != canon_name(59).len());
        } else if j == 16 {
            assert(canon_name(16)[0] != canon_name(59)[0]);
        } else if j == 17 {
            assert(canon_name(17).len() != canon_name(59).len());
        } else if j == 18 {
            assert(canon_name(18)[0] != canon_name(59)[0]);
        } else if j == 19 {
            assert(canon_name(19).len() != canon_name(59).len());
        } else if j == 20 {
            assert(canon_name(20).len() != canon_name(59).len());
        } else if j == 21 {
            assert(canon_name(21).len() != canon_name(59).len());
        } else if j == 22 {
            assert(canon_name(22)[0] != canon_name(59)[0]);
        } else if j == 23 {
            assert(canon_name(23).len() != canon_name(59).len());
        } else if j == 24 {
            assert(canon_name(24).len() != canon_name(59).len());
        } else if j == 25 {
            assert(canon_name(25).len() != canon_name(59).len());
        } else if j == 26 {
            assert(canon_name(26)[0] != canon_name(59)[0]);
        } else if j == 27 {
            assert(canon_name(27).len() != canon_name(59).len());
        } else if j == 28 {
            assert(canon_name(28).len() != canon_name(59).len());
        } else if j == 29 {
            assert(canon_name(29).len() != canon_name(59).len());
        } else if j == 30 {
            assert(canon_name(30).len() != canon_name(59).len());
        } else if j == 31 {
            assert(canon_name(31).len() != canon_name(59).len());
        } else if j == 32 {
            assert(canon_name(32).len() != canon_name(59).len());
        } else if j == 33 {
            assert(canon_name(33).len() != canon_name(59).len());
        } else if j == 34 {
            assert(canon_name(34).len() != canon_name(59).len());
        } else if j == 35 {
            assert(canon_name(35).len() != canon_name(59).len());
        } else if j == 36 {
            assert(canon_name(36)[0] != canon_name(59)[0]);
        } else if j == 37 {
            assert(canon_name(37).len() != canon_name(59).len());
        } else if j == 38 {
            assert(canon_name(38).len() != canon_name(59).len());
        } else if j == 39 {
            assert(canon_name(39).len() != canon_name(59).len());
        } else if j == 40 {
            assert(canon_name(40).len() != canon_name(59).len());
        } else if j == 41 {
            assert(canon_name(41).len() != canon_name(59).len());
        } else if j == 42 {
            assert(canon_name(42).len() != canon_name(59).len());
        } else if j == 43 {
            assert(canon_name(43).len() != canon_name(59).len());
        } else if j == 44 {
            assert(canon_name(44)[0] != canon_name(59)[0]);
        } else if j == 45 {
            assert(canon_name(45).len() != canon_name(59).len());
        } else if j == 46 {
            assert(canon_name(46).len() != canon_name(59).len());
        } else if j == 47 {
            assert(canon_name(47).len() != canon_name(59).len());
        } else if j == 48 {
            assert(canon_name(48).len() != canon_name(59).len());
        } else if j == 49 {
            assert(canon_name(49).len() != canon_name(59).len());
        } else if j == 50 {
            assert(canon_name(50).len() != canon_name(59).len());
        } else if j == 51 {
            assert(canon_name(51).len() != canon_name(59).len());
        } else if j == 52 {
            assert(canon_name(52).len() != canon_name(59).len());
        } else if j == 53 {
            assert(canon_name(53).len() != canon_name(59).len());
        } else if j == 54 {
            assert(canon_name(54).len() != canon_name(59).len());
        } else if j == 55 {
            assert(canon_name(55).len() != canon_name(59).len());
        } else if j == 56 {
            assert(canon_name(56).len() != canon_name(59).len());
        } else if j == 57 {
            assert(canon_name(57).len() != canon_name(59).len());
        } else if j == 58 {
            assert(canon_name(58).len() != canon_name(59).len());
        }
    }
}

proof fn lemma_canon_name_new_60()
    ensures
        forall|j: int| 0 <= j < 60 ==> #[trigger] canon_name(j) != canon_name(60),
{
    assert forall|j: int| 0 <= j < 60 implies #[trigger] canon_name(j) != canon_name(60) by {
        if j == 0 {
            assert(canon_name(0).len() != canon_name(60).len());
        } else if j == 1 {
            assert(canon_name(1)[0] != canon_name(60)[0]);
        } else if j == 2 {
            assert(canon_name(2).len() != canon_name(60).len());
        } else if j == 3 {
            assert(canon_name(3).len() != canon_name(60).len());
        } else if j == 4 {
            assert(canon_name(4).len() != canon_name(60).len());
        } else if j == 5 {
            assert(canon_name(5)[0] != canon_name(60)[0]);
        } else if j == 6 {
            assert(canon_name(6)[0] != canon_name(60)[0]);
        } else if j == 7 {
            assert(canon_name(7).len() != canon_name(60).len());
        } else if j == 8 {
            assert(canon_name(8).len() != canon_name(60).len());
        } else if j == 9 {
            assert(canon_name(9).len() != canon_name(60).len());
        } else if j == 10 {
            assert(canon_name(10)[0] != canon_name(60)[0]);
        } else if j == 11 {
            assert(canon_name(11)[1] != canon_name(60)[1]);
        } else if j == 12 {
            assert(canon_name(12).len() != canon_name(60).len());
        } else if j == 13 {
            assert(canon_name(13).len() != canon_name(60).len());
        } else if j == 14 {
            assert(canon_name(14).len() != canon_name(60).len());
        } else if j == 15 {
            assert(canon_name(15).len() != canon_name(60).len());
        } else if j == 16 {
            assert(canon_name(16)[0] != canon_name(60)[0]);
        } else if j == 17 {
            assert(canon_name(17).len() != canon_name(60).len());
        } else if j == 18 {
            assert(canon_name(18)[0] != canon_name(60)[0]);
        } else if j == 19 {
            assert(canon_name(19).len() != canon_name(60).len());
        } else if j == 20 {
            assert(canon_name(20).len() != canon_name(60).len());
        } else if j == 21 {
            assert(canon_name(21).len() != canon_name(60).len());
        } else if j == 22 {
            assert(canon_name(22)[0] != canon_name(60)[0]);
        } else if j == 23 {
            assert(canon_name(23).len() != canon_name(60).len());
        } else if j == 24 {
            assert(canon_name(24).len() != canon_name(60).len());
        } else if j == 25 {
            assert(canon_name(25).len() != canon_name(60).len());
        } else if j == 26 {
            assert(canon_name(26)[0] != canon_name(60)[0]);
        } else if j == 27 {
            assert(canon_name(27).len() != canon_name(60).len());
        } else if j == 28 {
            assert(canon_name(28).len() != canon_name(60).len());
        } else if j == 29 {
            assert(canon_name(29).len() != canon_name(60).len());
        } else if j == 30 {
            assert(canon_name(30).len() != canon_name(60).len());
        } else if j == 31 {
            assert(canon_name(31).len() != canon_name(60).len());
        } else if j == 32 {
            assert(canon_name(32).len() != canon_name(60).len());
        } else if j == 33 {
            assert(canon_name(33).len() != canon_name(60).len());
        } else if j == 34 {
            assert(canon_name(34).len() != canon_name(60).len());
        } else if j == 35 {
            assert(canon_name(35).len() != canon_name(60).len());
        } else if j == 36 {
            assert(canon_name(36)[0] != canon_name(60)[0]);
        } else if j == 37 {
            assert(canon_name(37).len() != canon_name(60).len());
        } else if j == 38 {
            assert(canon_name(38).len() != canon_name(60).len());
        } else if j == 39 {
            assert(canon_name(39).len() != canon_name(60).len());
        } else if j == 40 {
            assert(canon_name(40).len() != canon_name(60).len());
        } else if j == 41 {
            assert(canon_name(41).len() != canon_name(60).len());
        } else if j == 42 {
            assert(canon_name(42).len() != canon_name(60).len());
        } else if j == 43 {
            assert(canon_name(43).len() != canon_name(60).len());
        } else if j == 44 {
            assert(canon_name(44)[0] != canon_name(60)[0]);
        } else if j == 45 {
            assert(canon_name(45).len() != canon_name(60).len());
        } else if j == 46 {
            assert(canon_name(46).len() != canon_name(60).len());
        } else if j == 47 {
            assert(canon_name(47).len() != canon_name(60).len());
        } else if j == 48 {
            assert(canon_name(48).len() != canon_name(60).len());
        } else if j == 49 {
            assert(canon_name(49).len() != canon_name(60).len());
        } else if j == 50 {
            assert(canon_name(50).len() != canon_name(60).len());
        } else if j == 51 {
            assert(canon_name(51).len() != canon_name(60).len());
        } else if j == 52 {
            assert(canon_name(52).len() != canon_name(60).len());
        } else if j == 53 {
            assert(canon_name(53).len() != canon_name(60).len());
        } else if j == 54 {
            assert(canon_name(54).len() != canon_name(60).len());
        } else if j == 55 {
            assert(canon_name(55).len() != canon_name(60).len());
        } else if j == 56 {
            assert(canon_name(56).len() != canon_name(60).len());
        } else if j == 57 {
            assert(canon_name(57).len() != canon_name(60).len());
        } else if j == 58 {
            assert(canon_name(58).len() != canon_name(60).len());
        } else if j == 59 {
            assert(canon_name(59)[0] != canon_name(60)[0]);
        }
    }
}

proof fn lemma_canon_name_new_61()
    ensures
        forall|j: int| 0 <= j < 61 ==> #[trigger] canon_name(j) != canon_name(61),
{
    assert forall|j: int| 0 <= j < 61 implies #[trigger] canon_name(j) != canon_name(61) by {
        if j == 0 {
            assert(canon_name(0).len() != canon_name(61).len());
        } else if j == 1 {
            assert(canon_name(1).len() != canon_name(61).len());
        } else if j == 2 {
            assert(canon_name(2).len() != canon_name(61).len());
        } else if j == 3 {
            assert(canon_name(3).len() != canon_name(61).len());
        } else if j == 4 {
            assert(canon_name(4).len() != canon_name(61).len());
        } else if j == 5 {
            assert(canon_name(5).len() != canon_name(61).len());
        } else if j == 6 {
            assert(canon_name(6).len() != canon_name(61).len());
        } else if j == 7 {
            assert(canon_name(7).len() != canon_name(61).len());
        } else if j == 8 {
            assert(canon_name(8).len() != canon_name(61).len());
        } else if j == 9 {
            assert(canon_name(9).len() != canon_name(61).len());
        } else if j == 10 {
            assert(canon_name(10).len() != canon_name(61).len());
        } else if j == 11 {
            assert(canon_name(11).len() != canon_name(61).len());
        } else if j == 12 {
            assert(canon_name(12).len() != canon_name(61).len());
        } else if j == 13 {
            assert(canon_name(13).len() != canon_name(61).len());
        } else if j == 14 {
            assert(canon_name(14).len() != canon_name(61).len());
        } else if j == 15 {
            assert(canon_name(15).len() != canon_name(61).len());
        } else if j == 16 {
            assert(canon_name(16).len() != canon_name(61).len());
        } else if j == 17 {
            assert(canon_name(17).len() != canon_name(61).len());
        } else if j == 18 {
            assert(canon_name(18).len() != canon_name(61).len());
        } else if j == 19 {
            assert(canon_name(19).len() != canon_name(61).len());
        } else if j == 20 {
            assert(canon_name(20).len() != canon_name(61).len());
        } else if j == 21 {
            assert(canon_name(21).len() != canon_name(61).len());
        } else if j == 22 {
            assert(canon_name(22).len() != canon_name(61).len());
        } else if j == 23 {
            assert(canon_name(23).len() != canon_name(61).len());
        } else if j == 24 {
            assert(canon_name(24).len() != canon_name(61).len());
        } else if j == 25 {
            assert(canon_name(25).len() != canon_name(61).len());
        } else if j == 26 {
            assert(canon_name(26).len() != canon_name(61).len());
        } else if j == 27 {
            assert(canon_name(27)[0] != canon_name(61)[0]);
        } else if j == 28 {
            assert(canon_name(28).len() != canon_name(61).len());
        } else if j == 29 {
            assert(canon_name(29).len() != canon_name(61).len());
        } else if j == 30 {
            assert(canon_name(30).len() != canon_name(61).len());
        } else if j == 31 {
            assert(canon_name(31)[0] != canon_name(61)[0]);
        } else if j == 32 {
            assert(canon_name(32)[0] != canon_name(61)[0]);
        } else if j == 33 {
            assert(canon_name(33)[0] != canon_name(61)[0]);
        } else if j == 34 {
            assert(canon_name(34).len() != canon_name(61).len());
        } else if j == 35 {
            assert(canon_name(35).len() != canon_name(61).len());
        } else if j == 36 {
            assert(canon_name(36).len() != canon_name(61).len());
        } else if j == 37 {
            assert(canon_name(37).len() != canon_name(61).len());
        } else if j == 38 {
            assert(canon_name(38).len() != canon_name(61).len());
        } else if j == 39 {
            assert(canon_name(39).len() != canon_name(61).len());
        } else if j == 40 {
            assert(canon_name(40).len() != canon_name(61).len());
        } else if j == 41 {
            assert(canon_name(41).len() != canon_name(61).len());
        } else if j == 42 {
            assert(canon_name(42).len() != canon_name(61).len());
        } else if j == 43 {
            assert(canon_name(43).len() != canon_name(61).len());
        } else if j == 44 {
            assert(canon_name(44).len() != canon_name(61).len());
        } else if j == 45 {
            assert(canon_name(45).len() != canon_name(61).len());
        } else if j == 46 {
            assert(canon_name(46).len() != canon_name(61).len());
        } else if j == 47 {
            assert(canon_name(47).len() != canon_name(61).len());
        } else if j == 48 {
            assert(canon_name(48).len() != canon_name(61).len());
        } else if j == 49 {
            assert(canon_name(49).len() != canon_name(61).len());
        } else if j == 50 {
            assert(canon_name(50).len() != canon_name(61).len());
        } else if j == 51 {
            assert(canon_name(51).len() != canon_name(61).len());
        } else if j == 52 {
            assert(canon_name(52).len() != canon_name(61).len());
        } else if j == 53 {
            assert(canon_name(53).len() != canon_name(61).len());
        } else if j == 54 {
            assert(canon_name(54).len() != canon_name(61).len());
        } else if j == 55 {
            assert(canon_name(55)[0] != canon_name(61)[0]);
        } else if j == 56 {
            assert(canon_name(56).len() != canon_name(61).len());
        } else if j == 57 {
            assert(canon_name(57).len() != canon_name(61).len());
        } else if j == 58 {
            assert(canon_name(58)[0] != canon_name(61)[0]);
        } else if j == 59 {
            assert(canon_name(59).len() != canon_name(61).len());
        } else if j == 60 {
            assert(canon_name(60).len() != canon_name(61).len());
        }
    }
}

proof fn lemma_canon_name_new_62()
    ensures
        forall|j: int| 0 <= j < 62 ==> #[trigger] canon_name(j) != canon_name(62),
{
    assert forall|j: int| 0 <= j < 62 implies #[trigger] canon_name(j) != canon_name(62) by {
        if j == 0 {
            assert(canon_name(0).len() != canon_name(62).len());
        } else if j == 1 {
            assert(canon_name(1).len() != canon_name(62).len());
        } else if j == 2 {
            assert(canon_name(2).len() != canon_name(62).len());
        } else if j == 3 {
            assert(canon_name(3).len() != canon_name(62).len());
        } else if j == 4 {
            assert(canon_name(4).len() != canon_name(62).len());
        } else if j == 5 {
            assert(canon_name(5).len() != canon_name(62).len());
        } else if j == 6 {
            assert(canon_name(6).len() != canon_name(62).len());
        } else if j == 7 {
            assert(canon_name(7).len() != canon_name(62).len());
        } else if j == 8 {
            assert(canon_name(8).len() != canon_name(62).len());
        } else if j == 9 {
            assert(canon_name(9).len() != canon_name(62).len());
        } else if j == 10 {
            assert(canon_name(10).len() != canon_name(62).len());
        } else if j == 11 {
            assert(canon_name(11).len() != canon_name(62).len());
        } else if j == 12 {
            assert(canon_name(12).len() != canon_name(62).len());
        } else if j == 13 {
            assert(canon_name(13).len() != canon_name(62).len());
        } else if j == 14 {
            assert(canon_name(14).len() != canon_name(62).len());
        } else if j == 15 {
            assert(canon_name(15).len() != canon_name(62).len());
        } else if j == 16 {
            assert(canon_name(16).len() != canon_name(62).len());
        } else if j == 17 {
            assert(canon_name(17).len() != canon_name(62).len());
        } else if j == 18 {
            assert(canon_name(18).len() != canon_name(62).len());
        } else if j == 19 {
            assert(canon_name(19).len() != canon_name(62).len());
        } else if j == 20 {
            assert(canon_name(20).len() != canon_name(62).len());
        } else if j == 21 {
            assert(canon_name(21).len() != canon_name(62).len());
        } else if j == 22 {
            assert(canon_name(22).len() != canon_name(62).len());
        } else if j == 23 {
            assert(canon_name(23).len() != canon_name(62).len());
        } else if j == 24 {
            assert(canon_name(24).len() != canon_name(62).len());
        } else if j == 25 {
            assert(canon_name(25).len() != canon_name(62).len());
        } else if j == 26 {
            assert(canon_name(26).len() != canon_name(62).len());
        } else if j == 27 {
            assert(canon_name(27)[0] != canon_name(62)[0]);
        } else if j == 28 {
            assert(canon_name(28).len() != canon_name(62).len());
        } else if j == 29 {
            assert(canon_name(29).len() != canon_name(62).len());
        } else if j == 30 {
            assert(canon_name(30).len() != canon_name(62).len());
        } else if j == 31 {
            assert(canon_name(31)[0] != canon_name(62)[0]);
        } else if j == 32 {
            assert(canon_name(32)[0] != canon_name(62)[0]);
        } else if j == 33 {
            assert(canon_name(33)[0] != canon_name(62)[0]);
        } else if j == 34 {
            assert(canon_name(34).len() != canon_name(62).len());
        } else if j == 35 {
            assert(canon_name(35).len() != canon_name(62).len());
        } else if j == 36 {
            assert(canon_name(36).len() != canon_name(62).len());
        } else if j == 37 {
            assert(canon_name(37).len() != canon_name(62).len());
        } else if j == 38 {
            assert(canon_name(38).len() != canon_name(62).len());
        } else if j == 39 {
            assert(canon_name(39).len() != canon_name(62).len());
        } else if j == 40 {
            assert(canon_name(40).len() != canon_name(62).len());
        } else if j == 41 {
            assert(canon_name(41).len() != canon_name(62).len());
        } else if j == 42 {
            assert(canon_name(42).len() != canon_name(62).len());
        } else if j == 43 {
            assert(canon_name(43).len() != canon_name(62).len());
        } else if j == 44 {
            assert(canon_name(44).len() != canon_name(62).len());
        } else if j == 45 {
            assert(canon_name(45).len() != canon_name(62).len());
        } else if j == 46 {
            assert(canon_name(46).len() != canon_name(62).len());
        } else if j == 47 {
            assert(canon_name(47).len() != canon_name(62).len());
        } else if j == 48 {
            assert(canon_name(48).len() != canon_name(62).len());
        } else if j == 49 {
            assert(canon_name(49).len() != canon_name(62).len());
        } else if j == 50 {
            assert(canon_name(50).len() != canon_name(62).len());
        } else if j == 51 {
            assert(canon_name(51).len() != canon_name(62).len());
        } else if j == 52 {
            assert(canon_name(52).len() != canon_name(62).len());
        } else if j == 53 {
            assert(canon_name(53).len() != canon_name(62).len());
        } else if j == 54 {
            assert(canon_name(54).len() != canon_name(62).len());
        } else if j == 55 {
            assert(canon_name(55)[0] != canon_name(62)[0]);
        } else if j == 56 {
            assert(canon_name(56).len() != canon_name(62).len());
        } else if j == 57 {
            assert(canon_name(57).len() != canon_name(62).len());
        } else if j == 58 {
            assert(canon_name(58)[0] != canon_name(62)[0]);
        } else if j == 59 {
            assert(canon_name(59).len() != canon_name(62).len());
        } else if j == 60 {
            assert(canon_name(60).len() != canon_name(62).len());
        } else if j == 61 {
            assert(canon_name(61)[0] != canon_name(62)[0]);
        }
    }
}

proof fn lemma_canon_name_new_63()
    ensures
        forall|j: int| 0 <= j < 63 ==> #[trigger] canon_name(j) != canon_name(63),
{
    assert forall|j: int| 0 <= j < 63 implies #[trigger] canon_name(j) != canon_name(63) by {
        if j == 0 {
            assert(canon_name(0).len() != canon_name(63).len());
        } else if j == 1 {
            assert(canon_name(1).len() != canon_name(63).len());
        } else if j == 2 {
            assert(canon_name(2).len() != canon_name(63).len());
        } else if j == 3 {
            assert(canon_name(3).len() != canon_name(63).len());
        } else if j == 4 {
            assert(canon_name(4).len() != canon_name(63).len());
        } else if j == 5 {
            assert(canon_name(5).len() != canon_name(63).len());
        } else if j == 6 {
            assert(canon_name(6).len() != canon_name(63).len());
        } else if j == 7 {
            assert(canon_name(7).len() != canon_name(63).len());
        } else if j == 8 {
            assert(canon_name(8).len() != canon_name(63).len());
        } else if j == 9 {
            assert(canon_name(9).len() != canon_name(63).len());
        } else if j == 10 {
            assert(canon_name(10).len() != canon_name(63).len());
        } else if j == 11 {
            assert(canon_name(11).len() != canon_name(63).len());
        } else if j == 12 {
            assert(canon_name(12).len() != canon_name(63).len());
        } else if j == 13 {
            assert(canon_name(13).len() != canon_name(63).len());
        } else if j == 14 {
            assert(canon_name(14).len() != canon_name(63).len());
        } else if j == 15 {
            assert(canon_name(15).len() != canon_name(63).len());
        } else if j == 16 {
            assert(canon_name(16).len() != canon_name(63).len());
        } else if j == 17 {
            assert(canon_name(17).len() != canon_name(63).len());
        } else if j == 18 {
            assert(canon_name(18).len() != canon_name(63).len());
        } else if j == 19 {
            assert(canon_name(19).len() != canon_name(63).len());
        } else if j == 20 {
            assert(canon_name(20).len() != canon_name(63).len());
        } else if j == 21 {
            assert(canon_name(21).len() != canon_name(63).len());
        } else if j == 22 {
            assert(canon_name(22).len() != canon_name(63).len());
        } else if j == 23 {
            assert(canon_name(23).len() != canon_name(63).len());
        } else if j == 24 {
            assert(canon_name(24).len() != canon_name(63).len());
        } else if j == 25 {
            assert(canon_name(25).len() != canon_name(63).len());
        } else if j == 26 {
            assert(canon_name(26).len() != canon_name(63).len());
        } else if j == 27 {
            assert(canon_name(27)[0] != canon_name(63)[0]);
        } else if j == 28 {
            assert(canon_name(28).len() != canon_name(63).len());
        } else if j == 29 {
            assert(canon_name(29).len() != canon_name(63).len());
        } else if j == 30 {
            assert(canon_name(30).len() != canon_name(63).len());
        } else if j == 31 {
            assert(canon_name(31)[0] != canon_name(63)[0]);
        } else if j == 32 {
            assert(canon_name(32)[0] != canon_name(63)[0]);
        } else if j == 33 {
            assert(canon_name(33)[0] != canon_name(63)[0]);
        } else if j == 34 {
            assert(canon_name(34).len() != canon_name(63).len());
        } else if j == 35 {
            assert(canon_name(35).len() != canon_name(63).len());
        } else if j == 36 {
            assert(canon_name(36).len() != canon_name(63).len());
        } else if j == 37 {
            assert(canon_name(37).len() != canon_name(63).len());
        } else if j == 38 {
            assert(canon_name(38).len() != canon_name(63).len());
        } else if j == 39 {
            assert(canon_name(39).len() != canon_name(63).len());
        } else if j == 40 {
            assert(canon_name(40).len() != canon_name(63).len());
        } else if j == 41 {
            assert(canon_name(41).len() != canon_name(63).len());
        } else if j == 42 {
            assert(canon_name(42).len() != canon_name(63).len());
        } else if j == 43 {
            assert(canon_name(43).len() != canon_name(63).len());
        } else if j == 44 {
            assert(canon_name(44).len() != canon_name(63).len());
        } else if j == 45 {
            assert(canon_name(45).len() != canon_name(63).len());
        } else if j == 46 {
            assert(canon_name(46).len() != canon_name(63).len());
        } else if j == 47 {
            assert(canon_name(47).len() != canon_name(63).len());
        } else if j == 48 {
            assert(canon_name(48).len() != canon_name(63).len());
        } else if j == 49 {
            assert(canon_name(49).len() != canon_name(63).len());
        } else if j == 50 {
            assert(canon_name(50).len() != canon_name(63).len());
        } else if j == 51 {
            assert(canon_name(51).len() != canon_name(63).len());
        } else if j == 52 {
            assert(canon_name(52).len() != canon_name(63).len());
        } else if j == 53 {
            assert(canon_name(53).len() != canon_name(63).len());
        } else if j == 54 {
            assert(canon_name(54).len() != canon_name(63).len());
        } else if j == 55 {
            assert(canon_name(55)[0] != canon_name(63)[0]);
        } else if j == 56 {
            assert(canon_name(56).len() != canon_name(63).len());
        } else if j == 57 {
            assert(canon_name(57).len() != canon_name(63).len());
        } else if j == 58 {
            assert(canon_name(58)[0] != canon_name(63)[0]);
        } else if j == 59 {
            assert(canon_name(59).len() != canon_name(63).len());
        } else if j == 60 {
            assert(canon_name(60).len() != canon_name(63).len());
        } else if j == 61 {
            assert(canon_name(61)[0] != canon_name(63)[0]);
        } else if j == 62 {
            assert(canon_name(62)[0] != canon_name(63)[0]);
        }
    }
}

proof fn lemma_canon_name_new_64()
    ensures
        forall|j: int| 0 <= j < 64 ==> #[trigger] canon_name(j) != canon_name(64),
{
    assert forall|j: int| 0 <= j < 64 implies #[trigger] canon_name(j) != canon_name(64) by {
        if j == 0 {
            assert(canon_name(0).len() != canon_name(64).len());
        } else if j == 1 {
            assert(canon_name(1).len() != canon_name(64).len());
        } else if j == 2 {
            assert(canon_name(2).len() != canon_name(64).len());
        } else if j == 3 {
            assert(canon_name(3).len() != canon_name(64).len());
        } else if j == 4 {
            assert(canon_name(4).len() != canon_name(64).len());
        } else if j == 5 {
            assert(canon_name(5).len() != canon_name(64).len());
        } else if j == 6 {
            assert(canon_name(6).len() != canon_name(64).len());
        } else if j == 7 {
            assert(canon_name(7)[0] != canon_name(64)[0]);
        } else if j == 8 {
            assert(canon_name(8).len() != canon_name(64).len());
        } else if j == 9 {
            assert(canon_name(9).len() != canon_name(64).len());
        } else if j == 10 {
            assert(canon_name(10).len() != canon_name(64).len());
        } else if j == 11 {
            assert(canon_name(11).len() != canon_name(64).len());
        } else if j == 12 {
            assert(canon_name(12).len() != canon_name(64).len());
        } else if j == 13 {
            assert(canon_name(13).len() != canon_name(64).len());
        } else if j == 14 {
            assert(canon_name(14)[0] != canon_name(64)[0]);
        } else if j == 15 {
            assert(canon_name(15).len() != canon_name(64).len());
        } else if j == 16 {
            assert(canon_name(16).len() != canon_name(64).len());
        } else if j == 17 {
            assert(canon_name(17).len() != canon_name(64).len());
        } else if j == 18 {
            assert(canon_name(18).len() != canon_name(64).len());
        } else if j == 19 {
            assert(canon_name(19).len() != canon_name(64).len());
        } else if j == 20 {
            assert(canon_name(20).len() != canon_name(64).len());
        } else if j == 21 {
            assert(canon_name(21).len() != canon_name(64).len());
        } else if j == 22 {
            assert(canon_name(22).len() != canon_name(64).len());
        } else if j == 23 {
            assert(canon_name(23).len() != canon_name(64).len());
        } else if j == 24 {
            assert(canon_name(24).len() != canon_name(64).len());
        } else if j == 25 {
            assert(canon_name(25).len() != canon_name(64).len());
        } else if j == 26 {
            assert(canon_name(26).len() != canon_name(64).len());
        } else if j == 27 {
            assert(canon_name(27).len() != canon_name(64).len());
        } else if j == 28 {
            assert(canon_name(28)[1] != canon_name(64)[1]);
        } else if j == 29 {
            assert(canon_name(29)[0] != canon_name(64)[0]);
        } else if j == 30 {
            assert(canon_name(30).len() != canon_name(64).len());
        } else if j == 31 {
            assert(canon_name(31).len() != canon_name(64).len());
        } else if j == 32 {
            assert(canon_name(32).len() != canon_name(64).len());
        } else if j == 33 {
            assert(canon_name(33).len() != canon_name(64).len());
        } else if j == 34 {
            assert(canon_name(34).len() != canon_name(64).len());
        } else if j == 35 {
            assert(canon_name(35).len() != canon_name(64).len());
        } else if j == 36 {
            assert(canon_name(36).len() != canon_name(64).len());
        } else if j == 37 {
            assert(canon_name(37).len() != canon_name(64).len());
        } else if j == 38 {
            assert(canon_name(38).len() != canon_name(64).len());
        } else if j == 39 {
            assert(canon_name(39).len() != canon_name(64).len());
        } else if j == 40 {
            assert(canon_name(40)[0] != canon_name(64)[0]);
        } else if j == 41 {
            assert(canon_name(41)[0] != canon_name(64)[0]);
        } else if j == 42 {
            assert(canon_name(42)[1] != canon_name(64)[1]);
        } else if j == 43 {
            assert(canon_name(43)[0] != canon_name(64)[0]);
        } else if j == 44 {
            assert(canon_name(44).len() != canon_name(64).len());
        } else if j == 45 {
            assert(canon_name(45).len() != canon_name(64).len());
        } else if j == 46 {
            assert(canon_name(46).len() != canon_name(64).len());
        } else if j == 47 {
            assert(canon_name(47).len() != canon_name(64).len());
        } else if j == 48 {
            assert(canon_name(48).len() != canon_name(64).len());
        } else if j == 49 {
            assert(canon_name(49).len() != canon_name(64).len());
        } else if j == 50 {
            assert(canon_name(50).len() != canon_name(64).len());
        } else if j == 51 {
            assert(canon_name(51).len() != canon_name(64).len());
        } else if j == 52 {
            assert(canon_name(52).len() != canon_name(64).len());
        } else if j == 53 {
            assert(canon_name(53).len() != canon_name(64).len());
        } else if j == 54 {
            assert(canon_name(54).len() != canon_name(64).len());
        } else if j == 55 {
            assert(canon_name(55).len() != canon_name(64).len());
        } else if j == 56 {
            assert(canon_name(56).len() != canon_name(64).len());
        } else if j == 57 {
            assert(canon_name(57).len() != canon_name(64).len());
        } else if j == 58 {
            assert(canon_name(58).len() != canon_name(64).len());
        } else if j == 59 {
            assert(canon_name(59).len() != canon_name(64).len());
        } else if j == 60 {
            assert(canon_name(60).len() != canon_name(64).len());
        } else if j == 61 {
            assert(canon_name(61).len() != canon_name(64).len());
        } else if j == 62 {
            assert(canon_name(62).len() != canon_name(64).len());
        } else if j == 63 {
            assert(canon_name(63).len() != canon_name(64).len());
        }
    }
}

proof fn lemma_canon_name_new_65()
    ensures
        forall|j: int| 0 <= j < 65 ==> #[trigger] canon_name(j) != canon_name(65),
{
    assert forall|j: int| 0 <= j < 65 implies #[trigger] canon_name(j) != canon_name(65) by {
        if j == 0 {
            assert(canon_name(0).len() != canon_name(65).len());
        } else if j == 1 {
            assert(canon_name(1).len() != canon_name(65).len());
        } else if j == 2 {
            assert(canon_name(2).len() != canon_name(65).len());
        } else if j == 3 {
            assert(canon_name(3).len() != canon_name(65).len());
        } else if j == 4 {
            assert(canon_name(4).len() != canon_name(65).len());
        } else if j == 5 {
            assert(canon_name(5).len() != canon_name(65).len());
        } else if j == 6 {
            assert(canon_name(6).len() != canon_name(65).len());
        } else if j == 7 {
            assert(canon_name(7).len() != canon_name(65).len());
        } else if j == 8 {
            assert(canon_name(8).len() != canon_name(65).len());
        } else if j == 9 {
            assert(canon_name(9).len() != canon_name(65).len());
        } else if j == 10 {
            assert(canon_name(10).len() != canon_name(65).len());
        } else if j == 11 {
            assert(canon_name(11).len() != canon_name(65).len());
        } else if j == 12 {
            assert(canon_name(12).len() != canon_name(65).len());
        } else if j == 13 {
            assert(canon_name(13).len() != canon_name(65).len());
        } else if j == 14 {
            assert(canon_name(14).len() != canon_name(65).len());
        } else if j == 15 {
            assert(canon_name(15).len() != canon_name(65).len());
        } else if j == 16 {
            assert(canon_name(16).len() != canon_name(65).len());
        } else if j == 17 {
            assert(canon_name(17).len() != canon_name(65).len());
        } else if j == 18 {
            assert(canon_name(18).len() != canon_name(65).len());
        } else if j == 19 {
            assert(canon_name(19).len() != canon_name(65).len());
        } else if j == 20 {
            assert(canon_name(20).len() != canon_name(65).len());
        } else if j == 21 {
            assert(canon_name(21).len() != canon_name(65).len());
        } else if j == 22 {
            assert(canon_name(22).len() != canon_name(65).len());
        } else if j == 23 {
            assert(canon_name(23).len() != canon_name(65).len());
        } else if j == 24 {
            assert(canon_name(24).len() != canon_name(65).len());
        } else if j == 25 {
            assert(canon_name(25).len() != canon_name(65).len());
        } else if j == 26 {
            assert(canon_name(26).len() != canon_name(65).len());
        } else if j == 27 {
            assert(canon_name(27).len() != canon_name(65).len());
        } else if j == 28 {
            assert(canon_name(28).len() != canon_name(65).len());
        } else if j == 29 {
            assert(canon_name(29).len() != canon_name(65).len());
        } else if j == 30 {
            assert(canon_name(30).len() != canon_name(65).len());
        } else if j == 31 {
            assert(canon_name(31).len() != canon_name(65).len());
        } else if j == 32 {
            assert(canon_name(32).len() != canon_name(65).len());
        } else if j == 33 {
            assert(canon_name(33).len() != canon_name(65).len());
        } else if j == 34 {
            assert(canon_name(34).len() != canon_name(65).len());
        } else if j == 35 {
            assert(canon_name(35).len() != canon_name(65).len());
        } else if j == 36 {
            assert(canon_name(36).len() != canon_name(65).len());
        } else if j == 37 {
            assert(canon_name(37).len() != canon_name(65).len());
        } else if j == 38 {
            assert(canon_name(38).len() != canon_name(65).len());
        } else if j == 39 {
            assert(canon_name(39).len() != canon_name(65).len());
        } else if j == 40 {
            assert(canon_name(40).len() != canon_name(65).len());
        } else if j == 41 {
            assert(canon_name(41).len() != canon_name(65).len());
        } else if j == 42 {
            assert(canon_name(42).len() != canon_name(65).len());
        } else if j == 43 {
            assert(canon_name(43).len() != canon_name(65).len());
        } else if j == 44 {
            assert(canon_name(44).len() != canon_name(65).len());
        } else if j == 45 {
            assert(canon_name(45).len() != canon_name(65).len());
        } else if j == 46 {
            assert(canon_name(46).len() != canon_name(65).len());
        } else if j == 47 {
            assert(canon_name(47).len() != canon_name(65).len());
        } else if j == 48 {
            assert(canon_name(48).len() != canon_name(65).len());
        } else if j == 49 {
            assert(canon_name(49).len() != canon_name(65).len());
        } else if j == 50 {
            assert(canon_name(50)[0] != canon_name(65)[0]);
        } else if j == 51 {
            assert(canon_name(51).len() != canon_name(65).len());
        } else if j == 52 {
            assert(canon_name(52).len() != canon_name(65).len());
        } else if j == 53 {
            assert(canon_name(53).len() != canon_name(65).len());
        } else if j == 54 {
            assert(canon_name(54).len() != canon_name(65).len());
        } else if j == 55 {
            assert(canon_name(55).len() != canon_name(65).len());
        } else if j == 56 {
            assert(canon_name(56).len() != canon_name(65).len());
        } else if j == 57 {
            assert(canon_name(57).len() != canon_name(65).len());
        } else if j == 58 {
            assert(canon_name(58).len() != canon_name(65).len());
        } else if j == 59 {
            assert(canon_name(59).len() != canon_name(65).len());
        } else if j == 60 {
            assert(canon_name(60).len() != canon_name(65).len());
        } else if j == 61 {
            assert(canon_name(61).len() != canon_name(65).len());
        } else if j == 62 {
            assert(canon_name(62).len() != canon_name(65).len());
        } else if j == 63 {
            assert(canon_name(63).len() != canon_name(65).len());
        } else if j == 64 {
            assert(canon_name(64).len() != canon_name(65).len());
        }
    }
}

proof fn lemma_canon_names_new(b: int)
    requires
        0 <= b < BOOK_COUNT,
    ensures
        forall|j: int| 0 <= j < b ==> #[trigger] canon_name(j) != canon_name(b),
{
    if b == 1 {
        lemma_canon_name_new_1();
    } else if b == 2 {
        lemma_canon_name_new_2();
    } else if b == 3 {
        lemma_canon_name_new_3();
    } else if b == 4 {
        lemma_canon_name_new_4();
    } else if b == 5 {
        lemma_canon_name_new_5();
    } else if b == 6 {
        lemma_canon_name_new_6();
    } else if b == 7 {
        lemma_canon_name_new_7();
    } else if b == 8 {
        lemma_canon_name_new_8();
    } else if b == 9 {
        lemma_canon_name_new_9();
    } else if b == 10 {
        lemma_canon_name_new_10();
    } else if b == 11 {
        lemma_canon_name_new_11();
    } else if b == 12 {
        lemma_canon_name_new_12();
    } else if b == 13 {
        lemma_canon_name_new_13();
    } else if b == 14 {
        lemma_canon_name_new_14();
    } else if b == 15 {
        lemma_canon_name_new_15();
    } else if b == 16 {
        lemma_canon_name_new_16();
    } else if b == 17 {
        lemma_canon_name_new_17();
    } else if b == 18 {
        lemma_canon_name_new_18();
    } else if b == 19 {
        lemma_canon_name_new_19();
    } else if b == 20 {
        lemma_canon_name_new_20();
    } else if b == 21 {
        lemma_canon_name_new_21();
    } else if b == 22 {
        lemma_canon_name_new_22();
    } else if b == 23 {
        lemma_canon_name_new_23();
    } else if b == 24 {
        lemma_canon_name_new_24();
    } else if b == 25 {
        lemma_canon_name_new_25();
    } else if b == 26 {
        lemma_canon_name_new_26();
    } else if b == 27 {
        lemma_canon_name_new_27();
    } else if b == 28 {
        lemma_canon_name_new_28();
    } else if b == 29 {
        lemma_canon_name_new_29();
    } else if b == 30 {
        lemma_canon_name_new_30();
    } else if b == 31 {
        lemma_canon_name_new_31();
    } else if b == 32 {
        lemma_canon_name_new_32();
    } else if b == 33 {
        lemma_canon_name_new_33();
    } else if b == 34 {
        lemma_canon_name_new_34();
    } else if b == 35 {
        lemma_canon_name_new_35();
    } else if b == 36 {
        lemma_canon_name_new_36();
    } else if b == 37 {
        lemma_canon_name_new_37();
    } else if b == 38 {
        lemma_canon_name_new_38();
    } else if b == 39 {
        lemma_canon_name_new_39();
    } else if b == 40 {
        lemma_canon_name_new_40();
    } else if b == 41 {
        lemma_canon_name_new_41();
    } else if b == 42 {
        lemma_canon_name_new_42();
    } else if b == 43 {
        lemma_canon_name_new_43();
    } else if b == 44 {
        lemma_canon_name_new_44();
    } else if b == 45 {
        lemma_canon_name_new_45();
    } else if b == 46 {
        lemma_canon_name_new_46();
    } else if b == 47 {
        lemma_canon_name_new_47();
    } else if b == 48 {
        lemma_canon_name_new_48();
    } else if b == 49 {
        lemma_canon_name_new_49();
    } else if b == 50 {
        lemma_canon_name_new_50();
    } else if b == 51 {
        lemma_canon_name_new_51();
    } else if b == 52 {
        lemma_canon_name_new_52();
    } else if b == 53 {
        lemma_canon_name_new_53();
    } else if b == 54 {
        lemma_canon_name_new_54();
    } else if b == 55 {
        lemma_canon_name_new_55();
    } else if b == 56 {
        lemma_canon_name_new_56();
    } else if b == 57 {
        lemma_canon_name_new_57();
    } else if b == 58 {
        lemma_canon_name_new_58();
    } else if b == 59 {
        lemma_canon_name_new_59();
    } else if b == 60 {
        lemma_canon_name_new_60();
    } else if b == 61 {
        lemma_canon_name_new_61();
    } else if b == 62 {
        lemma_canon_name_new_62();
    } else if b == 63 {
        lemma_canon_name_new_63();
    } else if b == 64 {
        lemma_canon_name_new_64();
    } else if b == 65 {
        lemma_canon_name_new_65();
    }
}

proof fn lemma_canon_name_first(b: int)
    requires
        0 <= b < BOOK_COUNT,
    ensures
        first_hit(0, canon_name(b), 0, BOOK_COUNT as int) == Some(b),
{
    let a = canon_name(b);
    lemma_canon_names();
    lemma_canon_names_new(b);
    lemma_first_hit(0, a, 0, BOOK_COUNT as int);
    assert(hit(0, a, b));
    match first_hit(0, a, 0, BOOK_COUNT as int) {
        Some(x) => {
            if x < b {
                assert(hit(0, a, x));
                assert(canon_name(x) == a);
            }
        },
        None => {},
    }
}

/// An input with the canonical form of book `b`'s English name (any
/// case, with or without spaces, dots, hyphens and apostrophes) finds book
/// `b`: no earlier book's name has that canonical form.
pub proof fn lemma_canonical_name_finds_book(input: Seq<char>, b: int)
    requires
        0 <= b < BOOK_COUNT,
        canon_spec(input) == canon_spec(spec_book(b).name@),
    ensures
        normalize_spec(input) == Some(b),
{
    lemma_canon_names();
    lemma_canon_name_first(b);
    assert(canon_spec(input) == canon_name(b));
    assert(canon_name(b).len() > 0);
}

/// Every book's full English name finds that book.
pub proof fn lemma_full_name_finds_book(b: int)
    requires
        0 <= b < BOOK_COUNT,
    ensures
        normalize_spec(spec_book(b).name@) == Some(b),
{
    lemma_canonical_name_finds_book(spec_book(b).name@, b);
}

} // verus!
