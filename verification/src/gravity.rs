//! Level progression, gravity and scoring.
//!
//! Gravity is the number of rows that a piece falls per tick. At level `n`
//! a piece takes `(0.8 - (n - 1) * 0.007)^(n - 1)` seconds per row, at 60
//! ticks a second, capped at one row per tick. The functions here work with
//! that fraction exactly, as a quotient of two integers.

use vstd::prelude::*;
use vstd::arithmetic::power::pow;

verus! {

/// Ticks per second of play.
pub const TICKS_PER_SECOND: usize = 60;

/// The level that play starts at, and the lowest.
pub const MIN_LEVEL: usize = 1;

/// The highest level.
pub const MAX_LEVEL: usize = 20;

/// Cleared rows that it takes to gain a level.
pub const ROWS_PER_LEVEL: usize = 10;

/// The level after `rows_cleared` rows: a tenth of them, rounded up, and
/// kept between the lowest and the highest level.
pub open spec fn level_of(rows_cleared: nat) -> nat {
    let raw = (rows_cleared + ROWS_PER_LEVEL - 1) / (ROWS_PER_LEVEL as int);
    if raw < MIN_LEVEL {
        MIN_LEVEL as nat
    } else if raw > MAX_LEVEL {
        MAX_LEVEL as nat
    } else {
        raw as nat
    }
}

/// Ticks per row at `level`, before the cap, as a fraction: numerator.
pub open spec fn ticks_per_row_num(level: nat) -> int {
    TICKS_PER_SECOND * pow(807 - 7 * level, (level - 1) as nat)
}

/// Ticks per row at `level`, before the cap, as a fraction: denominator.
pub open spec fn ticks_per_row_den(level: nat) -> int {
    pow(1000, (level - 1) as nat)
}

/// Ticks between two automatic descents at `level`: the inverse of the
/// gravity, rounded up. With gravity capped at one row per tick this is at
/// least 1.
pub open spec fn fall_interval(level: nat) -> int {
    let num = ticks_per_row_num(level);
    let den = ticks_per_row_den(level);
    if num <= den {
        1
    } else {
        (num + den - 1) / den
    }
}

/// The factor by which a soft drop speeds the descent up at `level`: half a
/// row per tick divided by the gravity, rounded up, and at least 1.
pub open spec fn soft_drop_factor(level: nat) -> int {
    let num = ticks_per_row_num(level);
    let den = ticks_per_row_den(level);
    if num <= den {
        1
    } else {
        (num + 2 * den - 1) / (2 * den)
    }
}

/// Points for clearing `rows` rows at once at `level`: 100, 300, 500 or 800
/// times the level for one to four rows, nothing for any other number.
pub open spec fn line_clear_bonus(rows: nat, level: nat) -> nat {
    if rows == 1 {
        100 * level
    } else if rows == 2 {
        300 * level
    } else if rows == 3 {
        500 * level
    } else if rows == 4 {
        800 * level
    } else {
        0
    }
}

/// The level after `rows_cleared` rows.
pub fn level_for(rows_cleared: usize) -> (level: usize)
    ensures
        level == level_of(rows_cleared as nat),
        MIN_LEVEL <= level <= MAX_LEVEL,
{
    let raw = if rows_cleared % ROWS_PER_LEVEL == 0 {
        rows_cleared / ROWS_PER_LEVEL
    } else {
        rows_cleared / ROWS_PER_LEVEL + 1
    };
    if raw < MIN_LEVEL {
        MIN_LEVEL
    } else if raw > MAX_LEVEL {
        MAX_LEVEL
    } else {
        raw
    }
}

/// Ticks between two automatic descents at `level`, which is a level
/// between the lowest and the highest.
pub fn ticks_per_row(level: usize) -> (ticks: isize)
    requires
        MIN_LEVEL <= level <= MAX_LEVEL,
    ensures
        ticks == fall_interval(level as nat),
        1 <= ticks <= 60,
{
    proof {
        lemma_fall_table(level as nat);
    }
    if level == 1 {
        60
    } else if level == 2 {
        48
    } else if level == 3 {
        38
    } else if level == 4 {
        29
    } else if level == 5 {
        22
    } else if level == 6 {
        16
    } else if level == 7 {
        12
    } else if level == 8 {
        9
    } else if level == 9 {
        6
    } else if level == 10 {
        4
    } else if level == 11 {
        3
    } else if level <= 13 {
        2
    } else {
        1
    }
}

/// The factor by which a soft drop speeds the descent up at `level`, which
/// is a level between the lowest and the highest.
pub fn soft_drop_modifier(level: usize) -> (factor: usize)
    requires
        MIN_LEVEL <= level <= MAX_LEVEL,
    ensures
        factor == soft_drop_factor(level as nat),
        1 <= factor <= 30,
{
    proof {
        lemma_fall_table(level as nat);
    }
    if level == 1 {
        30
    } else if level == 2 {
        24
    } else if level == 3 {
        19
    } else if level == 4 {
        15
    } else if level == 5 {
        11
    } else if level == 6 {
        8
    } else if level == 7 {
        6
    } else if level == 8 {
        5
    } else if level == 9 {
        3
    } else if level <= 11 {
        2
    } else {
        1
    }
}

/// Points for clearing `rows` rows at once at `level`, which is no higher
/// than the highest level.
pub fn line_clear_points(rows: usize, level: usize) -> (points: usize)
    requires
        level <= MAX_LEVEL,
    ensures
        points == line_clear_bonus(rows as nat, level as nat),
{
    match rows {
        1 => 100 * level,
        2 => 300 * level,
        3 => 500 * level,
        4 => 800 * level,
        _ => 0,
    }
}

/// The fall interval and the soft-drop factor of level 1.
proof fn lemma_fall_level_1()
    ensures
        fall_interval(1) == 60,
        soft_drop_factor(1) == 30,
{
    reveal(pow);
    assert(pow(800, 0) == 1);
    assert(pow(1000, 0) == 1);
    assert(ticks_per_row_num(1) == 60);
    assert(ticks_per_row_den(1) == 1);
    assert((60int + 1int - 1) / 1int == 60);
    assert(2 * 1int == 2int);
    assert((60int + 2int - 1) / 2int == 30);
}

/// The fall interval and the soft-drop factor of level 2.
proof fn lemma_fall_level_2()
    ensures
        fall_interval(2) == 48,
        soft_drop_factor(2) == 24,
{
    reveal(pow);
    assert(pow(793, 0) == 1);
    assert(pow(793, 1) == 793);
    assert(pow(1000, 0) == 1);
    assert(pow(1000, 1) == 1000);
    assert(ticks_per_row_num(2) == 47580);
    assert(ticks_per_row_den(2) == 1000);
    assert((47580int + 1000int - 1) / 1000int == 48);
    assert(2 * 1000int == 2000int);
    assert((47580int + 2000int - 1) / 2000int == 24);
}

/// The fall interval and the soft-drop factor of level 3.
proof fn lemma_fall_level_3()
    ensures
        fall_interval(3) == 38,
        soft_drop_factor(3) == 19,
{
    reveal(pow);
    assert(pow(786, 0) == 1);
    assert(pow(786, 1) == 786);
    assert(pow(786, 2) == 617796);
    assert(pow(1000, 0) == 1);
    assert(pow(1000, 1) == 1000);
    assert(pow(1000, 2) == 1000000);
    assert(ticks_per_row_num(3) == 37067760);
    assert(ticks_per_row_den(3) == 1000000);
    assert((37067760int + 1000000int - 1) / 1000000int == 38);
    assert(2 * 1000000int == 2000000int);
    assert((37067760int + 2000000int - 1) / 2000000int == 19);
}

/// The fall interval and the soft-drop factor of level 4.
proof fn lemma_fall_level_4()
    ensures
        fall_interval(4) == 29,
        soft_drop_factor(4) == 15,
{
    reveal(pow);
    assert(pow(779, 0) == 1);
    assert(pow(779, 1) == 779);
    assert(pow(779, 2) == 606841);
    assert(pow(779, 3) == 472729139);
    assert(pow(1000, 0) == 1);
    assert(pow(1000, 1) == 1000);
    assert(pow(1000, 2) == 1000000);
    assert(pow(1000, 3) == 1000000000);
    assert(ticks_per_row_num(4) == 28363748340);
    assert(ticks_per_row_den(4) == 1000000000);
    assert((28363748340int + 1000000000int - 1) / 1000000000int == 29);
    assert(2 * 1000000000int == 2000000000int);
    assert((28363748340int + 2000000000int - 1) / 2000000000int == 15);
}

/// The fall interval and the soft-drop factor of level 5.
proof fn lemma_fall_level_5()
    ensures
        fall_interval(5) == 22,
        soft_drop_factor(5) == 11,
{
    reveal(pow);
    assert(pow(772, 0) == 1);
    assert(pow(772, 1) == 772);
    assert(pow(772, 2) == 595984);
    assert(pow(772, 3) == 460099648);
    assert(pow(772, 4) == 355196928256);
    assert(pow(1000, 0) == 1);
    assert(pow(1000, 1) == 1000);
    assert(pow(1000, 2) == 1000000);
    assert(pow(1000, 3) == 1000000000);
    assert(pow(1000, 4) == 1000000000000);
    assert(ticks_per_row_num(5) == 21311815695360);
    assert(ticks_per_row_den(5) == 1000000000000);
    assert((21311815695360int + 1000000000000int - 1) / 1000000000000int == 22);
    assert(2 * 1000000000000int == 2000000000000int);
    assert((21311815695360int + 2000000000000int - 1) / 2000000000000int == 11);
}

/// The fall interval and the soft-drop factor of level 6.
proof fn lemma_fall_level_6()
    ensures
        fall_interval(6) == 16,
        soft_drop_factor(6) == 8,
{
    reveal(pow);
    assert(pow(765, 0) == 1);
    assert(pow(765, 1) == 765);
    assert(pow(765, 2) == 585225);
    assert(pow(765, 3) == 447697125);
    assert(pow(765, 4) == 342488300625);
    assert(pow(765, 5) == 262003549978125);
    assert(pow(1000, 0) == 1);
    assert(pow(1000, 1) == 1000);
    assert(pow(1000, 2) == 1000000);
    assert(pow(1000, 3) == 1000000000);
    assert(pow(1000, 4) == 1000000000000);
    assert(pow(1000, 5) == 1000000000000000);
    assert(ticks_per_row_num(6) == 15720212998687500);
    assert(ticks_per_row_den(6) == 1000000000000000);
    assert((15720212998687500int + 1000000000000000int - 1) / 1000000000000000int == 16);
    assert(2 * 1000000000000000int == 2000000000000000int);
    assert((15720212998687500int + 2000000000000000int - 1) / 2000000000000000int == 8);
}

/// The fall interval and the soft-drop factor of level 7.
proof fn lemma_fall_level_7()
    ensures
        fall_interval(7) == 12,
        soft_drop_factor(7) == 6,
{
    reveal(pow);
    assert(pow(758, 0) == 1);
    assert(pow(758, 1) == 758);
    assert(pow(758, 2) == 574564);
    assert(pow(758, 3) == 435519512);
    assert(pow(758, 4) == 330123790096);
    assert(pow(758, 5) == 250233832892768);
    assert(pow(758, 6) == 189677245332718144);
    assert(pow(1000, 0) == 1);
    assert(pow(1000, 1) == 1000);
    assert(pow(1000, 2) == 1000000);
    assert(pow(1000, 3) == 1000000000);
    assert(pow(1000, 4) == 1000000000000);
    assert(pow(1000, 5) == 1000000000000000);
    assert(pow(1000, 6) == 1000000000000000000);
    assert(ticks_per_row_num(7) == 11380634719963088640);
    assert(ticks_per_row_den(7) == 1000000000000000000);
    assert((11380634719963088640int + 1000000000000000000int - 1) / 1000000000000000000int == 12);
    assert(2 * 1000000000000000000int == 2000000000000000000int);
    assert((11380634719963088640int + 2000000000000000000int - 1) / 2000000000000000000int == 6);
}

/// The fall interval and the soft-drop factor of level 8.
proof fn lemma_fall_level_8()
    ensures
        fall_interval(8) == 9,
        soft_drop_factor(8) == 5,
{
    reveal(pow);
    assert(pow(751, 0) == 1);
    assert(pow(751, 1) == 751);
    assert(pow(751, 2) == 564001);
    assert(pow(751, 3) == 423564751);
    assert(pow(751, 4) == 318097128001);
    assert(pow(751, 5) == 238890943128751);
    assert(pow(751, 6) == 179407098289692001);
    assert(pow(751, 7) == 134734730815558692751);
    assert(pow(1000, 0) == 1);
    assert(pow(1000, 1) == 1000);
    assert(pow(1000, 2) == 1000000);
    assert(pow(1000, 3) == 1000000000);
    assert(pow(1000, 4) == 1000000000000);
    assert(pow(1000, 5) == 1000000000000000);
    assert(pow(1000, 6) == 1000000000000000000);
    assert(pow(1000, 7) == 1000000000000000000000);
    assert(ticks_per_row_num(8) == 8084083848933521565060);
    assert(ticks_per_row_den(8) == 1000000000000000000000);
    assert((8084083848933521565060int + 1000000000000000000000int - 1) / 1000000000000000000000int == 9);
    assert(2 * 1000000000000000000000int == 2000000000000000000000int);
    assert((8084083848933521565060int + 2000000000000000000000int - 1) / 2000000000000000000000int == 5);
}

/// The fall interval and the soft-drop factor of level 9.
proof fn lemma_fall_level_9()
    ensures
        fall_interval(9) == 6,
        soft_drop_factor(9) == 3,
{
    reveal(pow);
    assert(pow(744, 0) == 1);
    assert(pow(744, 1) == 744);
    assert(pow(744, 2) == 553536);
    assert(pow(744, 3) == 411830784);
    assert(pow(744, 4) == 306402103296);
    assert(pow(744, 5) == 227963164852224);
    assert(pow(744, 6) == 169604594650054656);
    assert(pow(744, 7) == 126185818419640664064);
    assert(pow(744, 8) == 93882248904212654063616);
    assert(pow(1000, 0) == 1);
    assert(pow(1000, 1) == 1000);
    assert(pow(1000, 2) == 1000000);
    assert(pow(1000, 3) == 1000000000);
    assert(pow(1000, 4) == 1000000000000);
    assert(pow(1000, 5) == 1000000000000000);
    assert(pow(1000, 6) == 1000000000000000000);
    assert(pow(1000, 7) == 1000000000000000000000);
    assert(pow(1000, 8) == 1000000000000000000000000);
    assert(ticks_per_row_num(9) == 5632934934252759243816960);
    assert(ticks_per_row_den(9) == 1000000000000000000000000);
    assert((5632934934252759243816960int + 1000000000000000000000000int - 1) / 1000000000000000000000000int == 6);
    assert(2 * 1000000000000000000000000int == 2000000000000000000000000int);
    assert((5632934934252759243816960int + 2000000000000000000000000int - 1) / 2000000000000000000000000int == 3);
}

/// The fall interval and the soft-drop factor of level 10.
proof fn lemma_fall_level_10()
    ensures
        fall_interval(10) == 4,
        soft_drop_factor(10) == 2,
{
    reveal(pow);
    assert(pow(737, 0) == 1);
    assert(pow(737, 1) == 737);
    assert(pow(737, 2) == 543169);
    assert(pow(737, 3) == 400315553);
    assert(pow(737, 4) == 295032562561);
    assert(pow(737, 5) == 217438998607457);
    assert(pow(737, 6) == 160252541973695809);
    assert(pow(737, 7) == 118106123434613811233);
    assert(pow(737, 8) == 87044212971310378878721);
    assert(pow(737, 9) == 64151584959855749233617377);
    assert(pow(1000, 0) == 1);
    assert(pow(1000, 1) == 1000);
    assert(pow(1000, 2) == 1000000);
    assert(pow(1000, 3) == 1000000000);
    assert(pow(1000, 4) == 1000000000000);
    assert(pow(1000, 5) == 1000000000000000);
    assert(pow(1000, 6) == 1000000000000000000);
    assert(pow(1000, 7) == 1000000000000000000000);
    assert(pow(1000, 8) == 1000000000000000000000000);
    assert(pow(1000, 9) == 1000000000000000000000000000);
    assert(ticks_per_row_num(10) == 3849095097591344954017042620);
    assert(ticks_per_row_den(10) == 1000000000000000000000000000);
    assert((3849095097591344954017042620int + 1000000000000000000000000000int - 1) / 1000000000000000000000000000int == 4);
    assert(2 * 1000000000000000000000000000int == 2000000000000000000000000000int);
    assert((3849095097591344954017042620int + 2000000000000000000000000000int - 1) / 2000000000000000000000000000int == 2);
}

/// The fall interval and the soft-drop factor of level 11.
proof fn lemma_fall_level_11()
    ensures
        fall_interval(11) == 3,
        soft_drop_factor(11) == 2,
{
    reveal(pow);
    assert(pow(730, 0) == 1);
    assert(pow(730, 1) == 730);
    assert(pow(730, 2) == 532900);
    assert(pow(730, 3) == 389017000);
    assert(pow(730, 4) == 283982410000);
    assert(pow(730, 5) == 207307159300000);
    assert(pow(730, 6) == 151334226289000000);
    assert(pow(730, 7) == 110473985190970000000);
    assert(pow(730, 8) == 80646009189408100000000);
    assert(pow(730, 9) == 58871586708267913000000000);
    assert(pow(730, 10) == 42976258297035576490000000000);
    assert(pow(1000, 0) == 1);
    assert(pow(1000, 1) == 1000);
    assert(pow(1000, 2) == 1000000);
    assert(pow(1000, 3) == 1000000000);
    assert(pow(1000, 4) == 1000000000000);
    assert(pow(1000, 5) == 1000000000000000);
    assert(pow(1000, 6) == 1000000000000000000);
    assert(pow(1000, 7) == 1000000000000000000000);
    assert(pow(1000, 8) == 1000000000000000000000000);
    assert(pow(1000, 9) == 1000000000000000000000000000);
    assert(pow(1000, 10) == 1000000000000000000000000000000);
    assert(ticks_per_row_num(11) == 2578575497822134589400000000000);
    assert(ticks_per_row_den(11) == 1000000000000000000000000000000);
    assert((2578575497822134589400000000000int + 1000000000000000000000000000000int - 1) / 1000000000000000000000000000000int == 3);
    assert(2 * 1000000000000000000000000000000int == 2000000000000000000000000000000int);
    assert((2578575497822134589400000000000int + 2000000000000000000000000000000int - 1) / 2000000000000000000000000000000int == 2);
}

/// The fall interval and the soft-drop factor of level 12.
proof fn lemma_fall_level_12()
    ensures
        fall_interval(12) == 2,
        soft_drop_factor(12) == 1,
{
    reveal(pow);
    assert(pow(723, 0) == 1);
    assert(pow(723, 1) == 723);
    assert(pow(723, 2) == 522729);
    assert(pow(723, 3) == 377933067);
    assert(pow(723, 4) == 273245607441);
    assert(pow(723, 5) == 197556574179843);
    assert(pow(723, 6) == 142833403132026489);
    assert(pow(723, 7) == 103268550464455151547);
    assert(pow(723, 8) == 74663161985801074568481);
    assert(pow(723, 9) == 53981466115734176913011763);
    assert(pow(723, 10) == 39028600001675809908107504649);
    assert(pow(723, 11) == 28217677801211610563561725861227);
    assert(pow(1000, 0) == 1);
    assert(pow(1000, 1) == 1000);
    assert(pow(1000, 2) == 1000000);
    assert(pow(1000, 3) == 1000000000);
    assert(pow(1000, 4) == 1000000000000);
    assert(pow(1000, 5) == 1000000000000000);
    assert(pow(1000, 6) == 1000000000000000000);
    assert(pow(1000, 7) == 1000000000000000000000);
    assert(pow(1000, 8) == 1000000000000000000000000);
    assert(pow(1000, 9) == 1000000000000000000000000000);
    assert(pow(1000, 10) == 1000000000000000000000000000000);
    assert(pow(1000, 11) == 1000000000000000000000000000000000);
    assert(ticks_per_row_num(12) == 1693060668072696633813703551673620);
    assert(ticks_per_row_den(12) == 1000000000000000000000000000000000);
    assert((1693060668072696633813703551673620int + 1000000000000000000000000000000000int - 1) / 1000000000000000000000000000000000int == 2);
    assert(2 * 1000000000000000000000000000000000int == 2000000000000000000000000000000000int);
    assert((1693060668072696633813703551673620int + 2000000000000000000000000000000000int - 1) / 2000000000000000000000000000000000int == 1);
}

/// The fall interval and the soft-drop factor of level 13.
proof fn lemma_fall_level_13()
    ensures
        fall_interval(13) == 2,
        soft_drop_factor(13) == 1,
{
    reveal(pow);
    assert(pow(716, 0) == 1);
    assert(pow(716, 1) == 716);
    assert(pow(716, 2) == 512656);
    assert(pow(716, 3) == 367061696);
    assert(pow(716, 4) == 262816174336);
    assert(pow(716, 5) == 188176380824576);
    assert(pow(716, 6) == 134734288670396416);
    assert(pow(716, 7) == 96469750688003833856);
    assert(pow(716, 8) == 69072341492610745040896);
    assert(pow(716, 9) == 49455796508709293449281536);
    assert(pow(716, 10) == 35410350300235854109685579776);
    assert(pow(716, 11) == 25353810814968871542534875119616);
    assert(pow(716, 12) == 18153328543517712024454970585645056);
    assert(pow(1000, 0) == 1);
    assert(pow(1000, 1) == 1000);
    assert(pow(1000, 2) == 1000000);
    assert(pow(1000, 3) == 1000000000);
    assert(pow(1000, 4) == 1000000000000);
    assert(pow(1000, 5) == 1000000000000000);
    assert(pow(1000, 6) == 1000000000000000000);
    assert(pow(1000, 7) == 1000000000000000000000);
    assert(pow(1000, 8) == 1000000000000000000000000);
    assert(pow(1000, 9) == 1000000000000000000000000000);
    assert(pow(1000, 10) == 1000000000000000000000000000000);
    assert(pow(1000, 11) == 1000000000000000000000000000000000);
    assert(pow(1000, 12) == 1000000000000000000000000000000000000);
    assert(ticks_per_row_num(13) == 1089199712611062721467298235138703360);
    assert(ticks_per_row_den(13) == 1000000000000000000000000000000000000);
    assert((1089199712611062721467298235138703360int + 1000000000000000000000000000000000000int - 1) / 1000000000000000000000000000000000000int == 2);
    assert(2 * 1000000000000000000000000000000000000int == 2000000000000000000000000000000000000int);
    assert((1089199712611062721467298235138703360int + 2000000000000000000000000000000000000int - 1) / 2000000000000000000000000000000000000int == 1);
}

/// The fall interval and the soft-drop factor of level 14.
proof fn lemma_fall_level_14()
    ensures
        fall_interval(14) == 1,
        soft_drop_factor(14) == 1,
{
    reveal(pow);
    assert(pow(709, 0) == 1);
    assert(pow(709, 1) == 709);
    assert(pow(709, 2) == 502681);
    assert(pow(709, 3) == 356400829);
    assert(pow(709, 4) == 252688187761);
    assert(pow(709, 5) == 179155925122549);
    assert(pow(709, 6) == 127021550911887241);
    assert(pow(709, 7) == 90058279596528053869);
    assert(pow(709, 8) == 63851320233938390193121);
    assert(pow(709, 9) == 45270586045862318646922789);
    assert(pow(709, 10) == 32096845506516383920668257401);
    assert(pow(709, 11) == 22756663464120116199753794497309);
    assert(pow(709, 12) == 16134474396061162385625440298592081);
    assert(pow(709, 13) == 11439342346807364131408437171701785429);
    assert(pow(1000, 0) == 1);
    assert(pow(1000, 1) == 1000);
    assert(pow(1000, 2) == 1000000);
    assert(pow(1000, 3) == 1000000000);
    assert(pow(1000, 4) == 1000000000000);
    assert(pow(1000, 5) == 1000000000000000);
    assert(pow(1000, 6) == 1000000000000000000);
    assert(pow(1000, 7) == 1000000000000000000000);
    assert(pow(1000, 8) == 1000000000000000000000000);
    assert(pow(1000, 9) == 1000000000000000000000000000);
    assert(pow(1000, 10) == 1000000000000000000000000000000);
    assert(pow(1000, 11) == 1000000000000000000000000000000000);
    assert(pow(1000, 12) == 1000000000000000000000000000000000000);
    assert(pow(1000, 13) == 1000000000000000000000000000000000000000);
    assert(ticks_per_row_num(14) == 686360540808441847884506230302107125740);
    assert(ticks_per_row_den(14) == 1000000000000000000000000000000000000000);
}

/// The fall interval and the soft-drop factor of level 15.
proof fn lemma_fall_level_15()
    ensures
        fall_interval(15) == 1,
        soft_drop_factor(15) == 1,
{
    reveal(pow);
    assert(pow(702, 0) == 1);
    assert(pow(702, 1) == 702);
    assert(pow(702, 2) == 492804);
    assert(pow(702, 3) == 345948408);
    assert(pow(702, 4) == 242855782416);
    assert(pow(702, 5) == 170484759256032);
    assert(pow(702, 6) == 119680300997734464);
    assert(pow(702, 7) == 84015571300409593728);
    assert(pow(702, 8) == 58978931052887534797056);
    assert(pow(702, 9) == 41403209599127049427533312);
    assert(pow(702, 10) == 29065053138587188698128385024);
    assert(pow(702, 11) == 20403667303288206466086126286848);
    assert(pow(702, 12) == 14323374446908320939192460653367296);
    assert(pow(702, 13) == 10055008861729641299313107378663841792);
    assert(pow(702, 14) == 7058616220934208192117801379822016937984);
    assert(pow(1000, 0) == 1);
    assert(pow(1000, 1) == 1000);
    assert(pow(1000, 2) == 1000000);
    assert(pow(1000, 3) == 1000000000);
    assert(pow(1000, 4) == 1000000000000);
    assert(pow(1000, 5) == 1000000000000000);
    assert(pow(1000, 6) == 1000000000000000000);
    assert(pow(1000, 7) == 1000000000000000000000);
    assert(pow(1000, 8) == 1000000000000000000000000);
    assert(pow(1000, 9) == 1000000000000000000000000000);
    assert(pow(1000, 10) == 1000000000000000000000000000000);
    assert(pow(1000, 11) == 1000000000000000000000000000000000);
    assert(pow(1000, 12) == 1000000000000000000000000000000000000);
    assert(pow(1000, 13) == 1000000000000000000000000000000000000000);
    assert(pow(1000, 14) == 1000000000000000000000000000000000000000000);
    assert(ticks_per_row_num(15) == 423516973256052491527068082789321016279040);
    assert(ticks_per_row_den(15) == 1000000000000000000000000000000000000000000);
}

/// The fall interval and the soft-drop factor of level 16.
proof fn lemma_fall_level_16()
    ensures
        fall_interval(16) == 1,
        soft_drop_factor(16) == 1,
{
    reveal(pow);
    assert(pow(695, 0) == 1);
    assert(pow(695, 1) == 695);
    assert(pow(695, 2) == 483025);
    assert(pow(695, 3) == 335702375);
    assert(pow(695, 4) == 233313150625);
    assert(pow(695, 5) == 162152639684375);
    assert(pow(695, 6) == 112696084580640625);
    assert(pow(695, 7) == 78323778783545234375);
    assert(pow(695, 8) == 54435026254563937890625);
    assert(pow(695, 9) == 37832343246921936833984375);
    assert(pow(695, 10) == 26293478556610746099619140625);
    assert(pow(695, 11) == 18273967596844468539235302734375);
    assert(pow(695, 12) == 12700407479806905634768535400390625);
    assert(pow(695, 13) == 8826783198465799416164132103271484375);
    assert(pow(695, 14) == 6134614322933730594234071811773681640625);
    assert(pow(695, 15) == 4263556954438942762992679909182708740234375);
    assert(pow(1000, 0) == 1);
    assert(pow(1000, 1) == 1000);
    assert(pow(1000, 2) == 1000000);
    assert(pow(1000, 3) == 1000000000);
    assert(pow(1000, 4) == 1000000000000);
    assert(pow(1000, 5) == 1000000000000000);
    assert(pow(1000, 6) == 1000000000000000000);
    assert(pow(1000, 7) == 1000000000000000000000);
    assert(pow(1000, 8) == 1000000000000000000000000);
    assert(pow(1000, 9) == 1000000000000000000000000000);
    assert(pow(1000, 10) == 1000000000000000000000000000000);
    assert(pow(1000, 11) == 1000000000000000000000000000000000);
    assert(pow(1000, 12) == 1000000000000000000000000000000000000);
    assert(pow(1000, 13) == 1000000000000000000000000000000000000000);
    assert(pow(1000, 14) == 1000000000000000000000000000000000000000000);
    assert(pow(1000, 15) == 1000000000000000000000000000000000000000000000);
    assert(ticks_per_row_num(16) == 255813417266336565779560794550962524414062500);
    assert(ticks_per_row_den(16) == 1000000000000000000000000000000000000000000000);
}

/// The fall interval and the soft-drop factor of level 17.
proof fn lemma_fall_level_17()
    ensures
        fall_interval(17) == 1,
        soft_drop_factor(17) == 1,
{
    reveal(pow);
    assert(pow(688, 0) == 1);
    assert(pow(688, 1) == 688);
    assert(pow(688, 2) == 473344);
    assert(pow(688, 3) == 325660672);
    assert(pow(688, 4) == 224054542336);
    assert(pow(688, 5) == 154149525127168);
    assert(pow(688, 6) == 106054873287491584);
    assert(pow(688, 7) == 72965752821794209792);
    assert(pow(688, 8) == 50200437941394416336896);
    assert(pow(688, 9) == 34537901303679358439784448);
    assert(pow(688, 10) == 23762076096931398606571700224);
    assert(pow(688, 11) == 16348308354688802241321329754112);
    assert(pow(688, 12) == 11247636148025895942029074870829056);
    assert(pow(688, 13) == 7738373669841816408116003511130390528);
    assert(pow(688, 14) == 5324001084851169688783810415657708683264);
    assert(pow(688, 15) == 3662912746377604745883261565972503574085632);
    assert(pow(688, 16) == 2520083969507792065167683957389082458970914816);
    assert(pow(1000, 0) == 1);
    assert(pow(1000, 1) == 1000);
    assert(pow(1000, 2) == 1000000);
    assert(pow(1000, 3) == 1000000000);
    assert(pow(1000, 4) == 1000000000000);
    assert(pow(1000, 5) == 1000000000000000);
    assert(pow(1000, 6) == 1000000000000000000);
    assert(pow(1000, 7) == 1000000000000000000000);
    assert(pow(1000, 8) == 1000000000000000000000000);
    assert(pow(1000, 9) == 1000000000000000000000000000);
    assert(pow(1000, 10) == 1000000000000000000000000000000);
    assert(pow(1000, 11) == 1000000000000000000000000000000000);
    assert(pow(1000, 12) == 1000000000000000000000000000000000000);
    assert(pow(1000, 13) == 1000000000000000000000000000000000000000);
    assert(pow(1000, 14) == 1000000000000000000000000000000000000000000);
    assert(pow(1000, 15) == 1000000000000000000000000000000000000000000000);
    assert(pow(1000, 16) == 1000000000000000000000000000000000000000000000000);
    assert(ticks_per_row_num(17) == 151205038170467523910061037443344947538254888960);
    assert(ticks_per_row_den(17) == 1000000000000000000000000000000000000000000000000);
}

/// The fall interval and the soft-drop factor of level 18.
proof fn lemma_fall_level_18()
    ensures
        fall_interval(18) == 1,
        soft_drop_factor(18) == 1,
{
    reveal(pow);
    assert(pow(681, 0) == 1);
    assert(pow(681, 1) == 681);
    assert(pow(681, 2) == 463761);
    assert(pow(681, 3) == 315821241);
    assert(pow(681, 4) == 215074265121);
    assert(pow(681, 5) == 146465574547401);
    assert(pow(681, 6) == 99743056266780081);
    assert(pow(681, 7) == 67925021317677235161);
    assert(pow(681, 8) == 46256939517338197144641);
    assert(pow(681, 9) == 31500975811307312255500521);
    assert(pow(681, 10) == 21452164527500279645995854801);
    assert(pow(681, 11) == 14608924043227690438923177119481);
    assert(pow(681, 12) == 9948677273438057188906683618366561);
    assert(pow(681, 13) == 6775049223211316945645451544107628041);
    assert(pow(681, 14) == 4613808521006906839984552501537294695921);
    assert(pow(681, 15) == 3142003602805703558029480253546897687922201);
    assert(pow(681, 16) == 2139704453510684123018076052665437325475018881);
    assert(pow(681, 17) == 1457138732840775887775309791865162818648487857961);
    assert(pow(1000, 0) == 1);
    assert(pow(1000, 1) == 1000);
    assert(pow(1000, 2) == 1000000);
    assert(pow(1000, 3) == 1000000000);
    assert(pow(1000, 4) == 1000000000000);
    assert(pow(1000, 5) == 1000000000000000);
    assert(pow(1000, 6) == 1000000000000000000);
    assert(pow(1000, 7) == 1000000000000000000000);
    assert(pow(1000, 8) == 1000000000000000000000000);
    assert(pow(1000, 9) == 1000000000000000000000000000);
    assert(pow(1000, 10) == 1000000000000000000000000000000);
    assert(pow(1000, 11) == 1000000000000000000000000000000000);
    assert(pow(1000, 12) == 1000000000000000000000000000000000000);
    assert(pow(1000, 13) == 1000000000000000000000000000000000000000);
    assert(pow(1000, 14) == 1000000000000000000000000000000000000000000);
    assert(pow(1000, 15) == 1000000000000000000000000000000000000000000000);
    assert(pow(1000, 16) == 1000000000000000000000000000000000000000000000000);
    assert(pow(1000, 17) == 1000000000000000000000000000000000000000000000000000);
    assert(ticks_per_row_num(18) == 87428323970446553266518587511909769118909271477660);
    assert(ticks_per_row_den(18) == 1000000000000000000000000000000000000000000000000000);
}

/// The fall interval and the soft-drop factor of level 19.
proof fn lemma_fall_level_19()
    ensures
        fall_interval(19) == 1,
        soft_drop_factor(19) == 1,
{
    reveal(pow);
    assert(pow(674, 0) == 1);
    assert(pow(674, 1) == 674);
    assert(pow(674, 2) == 454276);
    assert(pow(674, 3) == 306182024);
    assert(pow(674, 4) == 206366684176);
    assert(pow(674, 5) == 139091145134624);
    assert(pow(674, 6) == 93747431820736576);
    assert(pow(674, 7) == 63185769047176452224);
    assert(pow(674, 8) == 42587208337796928798976);
    assert(pow(674, 9) == 28703778419675130010509824);
    assert(pow(674, 10) == 19346346654861037627083621376);
    assert(pow(674, 11) == 13039437645376339360654360807424);
    assert(pow(674, 12) == 8788580972983652729081039184203776);
    assert(pow(674, 13) == 5923503575790981939400620410153345024);
    assert(pow(674, 14) == 3992441410083121827156018156443354546176);
    assert(pow(674, 15) == 2690905510396024111503156237442820964122624);
    assert(pow(674, 16) == 1813670314006920251153127304036461329818648576);
    assert(pow(674, 17) == 1222413791640664249277207802920574936297769140224);
    assert(pow(674, 18) == 823906895565807704012838059168467507064696400510976);
    assert(pow(1000, 0) == 1);
    assert(pow(1000, 1) == 1000);
    assert(pow(1000, 2) == 1000000);
    assert(pow(1000, 3) == 1000000000);
    assert(pow(1000, 4) == 1000000000000);
    assert(pow(1000, 5) == 1000000000000000);
    assert(pow(1000, 6) == 1000000000000000000);
    assert(pow(1000, 7) == 1000000000000000000000);
    assert(pow(1000, 8) == 1000000000000000000000000);
    assert(pow(1000, 9) == 1000000000000000000000000000);
    assert(pow(1000, 10) == 1000000000000000000000000000000);
    assert(pow(1000, 11) == 1000000000000000000000000000000000);
    assert(pow(1000, 12) == 1000000000000000000000000000000000000);
    assert(pow(1000, 13) == 1000000000000000000000000000000000000000);
    assert(pow(1000, 14) == 1000000000000000000000000000000000000000000);
    assert(pow(1000, 15) == 1000000000000000000000000000000000000000000000);
    assert(pow(1000, 16) == 1000000000000000000000000000000000000000000000000);
    assert(pow(1000, 17) == 1000000000000000000000000000000000000000000000000000);
    assert(pow(1000, 18) == 1000000000000000000000000000000000000000000000000000000);
    assert(ticks_per_row_num(19) == 49434413733948462240770283550108050423881784030658560);
    assert(ticks_per_row_den(19) == 1000000000000000000000000000000000000000000000000000000);
}

/// The fall interval and the soft-drop factor of level 20.
proof fn lemma_fall_level_20()
    ensures
        fall_interval(20) == 1,
        soft_drop_factor(20) == 1,
{
    reveal(pow);
    assert(pow(667, 0) == 1);
    assert(pow(667, 1) == 667);
    assert(pow(667, 2) == 444889);
    assert(pow(667, 3) == 296740963);
    assert(pow(667, 4) == 197926222321);
    assert(pow(667, 5) == 132016790288107);
    assert(pow(667, 6) == 88055199122167369);
    assert(pow(667, 7) == 58732817814485635123);
    assert(pow(667, 8) == 39174789482261918627041);
    assert(pow(667, 9) == 26129584584668699724236347);
    assert(pow(667, 10) == 17428432917974022716065643449);
    assert(pow(667, 11) == 11624764756288673151615784180483);
    assert(pow(667, 12) == 7753718092444544992127728048382161);
    assert(pow(667, 13) == 5171729967660511509749194608270901387);
    assert(pow(667, 14) == 3449543888429561177002712803716691225129);
    assert(pow(667, 15) == 2300845773582517305060809440079033047161043);
    assert(pow(667, 16) == 1534664130979539042475559896532715042456415681);
    assert(pow(667, 17) == 1023620975363352541331198450987320933318429259227);
    assert(pow(667, 18) == 682755190567356145067909366808543062523392315904409);
    assert(pow(667, 19) == 455397712108426548760295547661298222703102674708240803);
    assert(pow(1000, 0) == 1);
    assert(pow(1000, 1) == 1000);
    assert(pow(1000, 2) == 1000000);
    assert(pow(1000, 3) == 1000000000);
    assert(pow(1000, 4) == 1000000000000);
    assert(pow(1000, 5) == 1000000000000000);
    assert(pow(1000, 6) == 1000000000000000000);
    assert(pow(1000, 7) == 1000000000000000000000);
    assert(pow(1000, 8) == 1000000000000000000000000);
    assert(pow(1000, 9) == 1000000000000000000000000000);
    assert(pow(1000, 10) == 1000000000000000000000000000000);
    assert(pow(1000, 11) == 1000000000000000000000000000000000);
    assert(pow(1000, 12) == 1000000000000000000000000000000000000);
    assert(pow(1000, 13) == 1000000000000000000000000000000000000000);
    assert(pow(1000, 14) == 1000000000000000000000000000000000000000000);
    assert(pow(1000, 15) == 1000000000000000000000000000000000000000000000);
    assert(pow(1000, 16) == 1000000000000000000000000000000000000000000000000);
    assert(pow(1000, 17) == 1000000000000000000000000000000000000000000000000000);
    assert(pow(1000, 18) == 1000000000000000000000000000000000000000000000000000000);
    assert(pow(1000, 19) == 1000000000000000000000000000000000000000000000000000000000);
    assert(ticks_per_row_num(20) == 27323862726505592925617732859677893362186160482494448180);
    assert(ticks_per_row_den(20) == 1000000000000000000000000000000000000000000000000000000000);
}

/// The fall interval and the soft-drop factor of each level.
pub proof fn lemma_fall_table(level: nat)
    requires
        MIN_LEVEL <= level <= MAX_LEVEL,
    ensures
        fall_interval(level) == (if level == 1 {
            60int
        } else if level == 2 {
            48
        } else if level == 3 {
            38
        } else if level == 4 {
            29
        } else if level == 5 {
            22
        } else if level == 6 {
            16
        } else if level == 7 {
            12
        } else if level == 8 {
            9
        } else if level == 9 {
            6
        } else if level == 10 {
            4
        } else if level == 11 {
            3
        } else if level <= 13 {
            2
        } else {
            1
        }),
        soft_drop_factor(level) == (if level == 1 {
            30int
        } else if level == 2 {
            24
        } else if level == 3 {
            19
        } else if level == 4 {
            15
        } else if level == 5 {
            11
        } else if level == 6 {
            8
        } else if level == 7 {
            6
        } else if level == 8 {
            5
        } else if level == 9 {
            3
        } else if level <= 11 {
            2
        } else {
            1
        }),
{
    if level == 1 {
        lemma_fall_level_1();
    } else if level == 2 {
        lemma_fall_level_2();
    } else if level == 3 {
        lemma_fall_level_3();
    } else if level == 4 {
        lemma_fall_level_4();
    } else if level == 5 {
        lemma_fall_level_5();
    } else if level == 6 {
        lemma_fall_level_6();
    } else if level == 7 {
        lemma_fall_level_7();
    } else if level == 8 {
        lemma_fall_level_8();
    } else if level == 9 {
        lemma_fall_level_9();
    } else if level == 10 {
        lemma_fall_level_10();
    } else if level == 11 {
        lemma_fall_level_11();
    } else if level == 12 {
        lemma_fall_level_12();
    } else if level == 13 {
        lemma_fall_level_13();
    } else if level == 14 {
        lemma_fall_level_14();
    } else if level == 15 {
        lemma_fall_level_15();
    } else if level == 16 {
        lemma_fall_level_16();
    } else if level == 17 {
        lemma_fall_level_17();
    } else if level == 18 {
        lemma_fall_level_18();
    } else if level == 19 {
        lemma_fall_level_19();
    } else if level == 20 {
        lemma_fall_level_20();
    }
}

} // verus!
