//! Referral codes: every identifier up to `MAX_ID` is mapped to a code of the
//! form `adjective-color-animal`, and distinct identifiers get distinct codes.
use vstd::prelude::*;

use crate::decimal::{
    decimal_text, digits_value, is_digit_char, lemma_decimal_text_reads_back, unsigned_text,
};
use crate::words::{
    adjective_words, animal_words, color_words, free_of_separator, lemma_adjectives_well_formed,
    lemma_animals_well_formed, lemma_colors_well_formed, lemma_table_entries_distinct, separator,
    ADJECTIVES, ANIMALS, COLORS,
};

verus! {

/// Number of animals.
pub const ANIM_COUNT: u32 = 223;
/// Number of colors.
pub const COL_COUNT: u32 = 147;
/// Number of adjectives.
pub const ADJ_COUNT: u32 = 90;
/// The largest identifier that has a referral code.
pub const MAX_ID: u32 = (ADJ_COUNT * COL_COUNT * ANIM_COUNT) - 1;
pub const ADJ_OFFSET: u32 = 17;
pub const COLOR_OFFSET: u32 = 29;
pub const COLOR_OFFSET_STEP: u32 = 37;
pub const ANIMAL_OFFSET: u32 = 41;
pub const ANIMAL_OFFSET_STEP: u32 = 83;
pub const ANIMAL_ADJ_STEP: u32 = 97;

/// Why an identifier has no referral code.
#[derive(Debug, Clone, Copy, PartialEq, Eq, Structural)]
pub enum ReferralCodeGenerationError {
    /// The identifier is larger than `MAX_ID`.
    IdTooLarge(u32),
}

/// The message of an error: `id too large: <id>`.
pub open spec fn generation_error_message(err: ReferralCodeGenerationError) -> Seq<char> {
    match err {
        ReferralCodeGenerationError::IdTooLarge(id) => "id too large: "@ + decimal_text(id as nat),
    }
}

impl ReferralCodeGenerationError {
    /// The text that describes the error, as its `Display` writes it.
    pub fn message(&self) -> (text: String)
        ensures
            text@ == generation_error_message(*self),
    {
        match self {
            ReferralCodeGenerationError::IdTooLarge(id) => {
                let mut text = String::new();
                text.append("id too large: ");
                text.append(unsigned_text(*id as u64).as_str());
                text
            },
        }
    }
}

/// The positions in the adjective, color and animal tables of the words of
/// the code of `id`: the mixed-radix digits of `id` (adjective, color,
/// animal), each shifted by an offset that depends on the lower digits.
pub open spec fn code_indices(id: int) -> (int, int, int) {
    let base_adjective = id % (ADJ_COUNT as int);
    let base_color = (id / (ADJ_COUNT as int)) % (COL_COUNT as int);
    let base_animal = (id / (ADJ_COUNT as int) / (COL_COUNT as int)) % (ANIM_COUNT as int);
    (
        (base_adjective + ADJ_OFFSET) % (ADJ_COUNT as int),
        (base_color + base_adjective * COLOR_OFFSET_STEP + COLOR_OFFSET) % (COL_COUNT as int),
        (base_animal + base_color * ANIMAL_OFFSET_STEP + base_adjective * ANIMAL_ADJ_STEP
            + ANIMAL_OFFSET) % (ANIM_COUNT as int),
    )
}

/// Three words joined by the separator.
pub open spec fn join_code(adjective: Seq<char>, color: Seq<char>, animal: Seq<char>) -> Seq<char> {
    adjective + seq![separator()] + color + seq![separator()] + animal
}

/// The referral code of `id`.
pub open spec fn referral_code_text(id: int) -> Seq<char> {
    let (a, c, n) = code_indices(id);
    join_code(adjective_words()[a], color_words()[c], animal_words()[n])
}

/// The referral code of `id`: `Ok` with the code when `id <= MAX_ID`, and
/// `IdTooLarge(id)` otherwise.
pub fn map_to_referral_code(id: u32) -> (result: Result<String, ReferralCodeGenerationError>)
    ensures
        id > MAX_ID ==> result == Err::<String, ReferralCodeGenerationError>(
            ReferralCodeGenerationError::IdTooLarge(id),
        ),
        id <= MAX_ID ==> (result matches Ok(code) && code@ == referral_code_text(id as int)),
{
    if id > MAX_ID {
        return Err(ReferralCodeGenerationError::IdTooLarge(id));
    }
    let mut value = id;
    let base_adjective = value % ADJ_COUNT;
    value = value / ADJ_COUNT;
    let base_color = value % COL_COUNT;
    value = value / COL_COUNT;
    let base_animal = value % ANIM_COUNT;

    let adjective_idx = ((base_adjective + ADJ_OFFSET) % ADJ_COUNT) as usize;
    let color_idx = ((base_color + (base_adjective * COLOR_OFFSET_STEP) + COLOR_OFFSET)
        % COL_COUNT) as usize;
    let animal_idx = ((base_animal + (base_color * ANIMAL_OFFSET_STEP) + (base_adjective
        * ANIMAL_ADJ_STEP) + ANIMAL_OFFSET) % ANIM_COUNT) as usize;

    proof {
        reveal_strlit("-");
    }
    let mut code = String::new();
    code.append(ADJECTIVES[adjective_idx]);
    code.append("-");
    code.append(COLORS[color_idx]);
    code.append("-");
    code.append(ANIMALS[animal_idx]);
    assert(code@ =~= referral_code_text(id as int));
    Ok(code)
}

/// The line that lists `id` with its code: `<id> <code>`.
pub open spec fn code_line_text(id: int) -> Seq<char> {
    decimal_text(id as nat) + seq![' '] + referral_code_text(id)
}

/// The listing line of `id`, or the error when `id` has no code.
pub fn code_line(id: u32) -> (line: Result<String, ReferralCodeGenerationError>)
    ensures
        id > MAX_ID ==> line == Err::<String, ReferralCodeGenerationError>(
            ReferralCodeGenerationError::IdTooLarge(id),
        ),
        id <= MAX_ID ==> (line matches Ok(text) && text@ == code_line_text(id as int)),
{
    let code = map_to_referral_code(id)?;
    proof {
        reveal_strlit(" ");
    }
    let mut line = unsigned_text(id as u64);
    line.append(" ");
    line.append(code.as_str());
    assert(line@ =~= code_line_text(id as int));
    Ok(line)
}

/// Shifting by the same amount modulo `m` keeps residues apart.
proof fn lemma_shift_mod_injective(x: int, y: int, t: int, m: int)
    requires
        0 < m,
        0 <= x < m,
        0 <= y < m,
        (x + t) % m == (y + t) % m,
    ensures
        x == y,
{
    vstd::arithmetic::div_mod::lemma_fundamental_div_mod(x + t, m);
    vstd::arithmetic::div_mod::lemma_fundamental_div_mod(y + t, m);
    let q1 = (x + t) / m;
    let q2 = (y + t) / m;
    assert(x - y == m * q1 - m * q2);
    assert(x == y) by (nonlinear_arith)
        requires
            x - y == m * q1 - m * q2,
            0 < m,
            0 <= x < m,
            0 <= y < m,
    ;
}

/// An identifier is determined by its three mixed-radix digits.
proof fn lemma_digits_determine_id(id: int)
    requires
        0 <= id <= MAX_ID,
    ensures
        id == id % 90 + 90 * ((id / 90) % 147 + 147 * (id / 90 / 147)),
        id / 90 / 147 < 223,
{
    vstd::arithmetic::div_mod::lemma_fundamental_div_mod(id, 90);
    vstd::arithmetic::div_mod::lemma_fundamental_div_mod(id / 90, 147);
}

/// Identifiers with the same code positions are the same identifier.
proof fn lemma_code_indices_injective(id1: int, id2: int)
    requires
        0 <= id1 <= MAX_ID,
        0 <= id2 <= MAX_ID,
        code_indices(id1) == code_indices(id2),
    ensures
        id1 == id2,
{
    let a1 = id1 % 90;
    let a2 = id2 % 90;
    let c1 = (id1 / 90) % 147;
    let c2 = (id2 / 90) % 147;
    let n1 = (id1 / 90 / 147) % 223;
    let n2 = (id2 / 90 / 147) % 223;
    lemma_digits_determine_id(id1);
    lemma_digits_determine_id(id2);
    lemma_shift_mod_injective(a1, a2, 17, 90);
    lemma_shift_mod_injective(c1, c2, a1 * 37 + 29, 147);
    lemma_shift_mod_injective(n1, n2, c1 * 83 + a1 * 97 + 41, 223);
}

/// A join of words free of the separator is split back into the same words.
proof fn lemma_join_code_injective(
    a1: Seq<char>,
    c1: Seq<char>,
    n1: Seq<char>,
    a2: Seq<char>,
    c2: Seq<char>,
    n2: Seq<char>,
)
    requires
        free_of_separator(a1),
        free_of_separator(c1),
        free_of_separator(a2),
        free_of_separator(c2),
        join_code(a1, c1, n1) == join_code(a2, c2, n2),
    ensures
        a1 == a2,
        c1 == c2,
        n1 == n2,
{
    let rest1 = c1 + seq![separator()] + n1;
    let rest2 = c2 + seq![separator()] + n2;
    assert(join_code(a1, c1, n1) =~= a1 + seq![separator()] + rest1);
    assert(join_code(a2, c2, n2) =~= a2 + seq![separator()] + rest2);
    lemma_split_at_separator(a1, rest1, a2, rest2);
    lemma_split_at_separator(c1, n1, c2, n2);
}

proof fn lemma_split_at_separator(x1: Seq<char>, y1: Seq<char>, x2: Seq<char>, y2: Seq<char>)
    requires
        free_of_separator(x1),
        free_of_separator(x2),
        x1 + seq![separator()] + y1 == x2 + seq![separator()] + y2,
    ensures
        x1 == x2,
        y1 == y2,
{
    let s = x1 + seq![separator()] + y1;
    let t = x2 + seq![separator()] + y2;
    if x1.len() < x2.len() {
        assert(s[x1.len() as int] == separator());
        assert(t[x1.len() as int] == x2[x1.len() as int]);
    } else if x2.len() < x1.len() {
        assert(t[x2.len() as int] == separator());
        assert(s[x2.len() as int] == x1[x2.len() as int]);
    } else {
        assert forall|k: int| 0 <= k < x1.len() implies x1[k] == x2[k] by {
            assert(s[k] == t[k]);
        }
        assert(x1 =~= x2);
        assert(s == t);
        assert(s.len() == x1.len() + 1 + y1.len());
        assert(t.len() == x2.len() + 1 + y2.len());
        assert forall|k: int| 0 <= k < y1.len() implies y1[k] == y2[k] by {
            assert(s[x1.len() + 1 + k] == y1[k]);
            assert(t[x2.len() + 1 + k] == y2[k]);
        }
        assert(y1 =~= y2);
    }
}

/// Distinct identifiers that have codes get distinct codes.
pub proof fn lemma_distinct_ids_have_distinct_codes(id1: int, id2: int)
    requires
        0 <= id1 <= MAX_ID,
        0 <= id2 <= MAX_ID,
        id1 != id2,
    ensures
        referral_code_text(id1) != referral_code_text(id2),
{
    lemma_adjectives_well_formed();
    lemma_colors_well_formed();
    lemma_animals_well_formed();
    let (a1, c1, n1) = code_indices(id1);
    let (a2, c2, n2) = code_indices(id2);
    if referral_code_text(id1) == referral_code_text(id2) {
        assert(free_of_separator(adjective_words()[a1]));
        assert(free_of_separator(adjective_words()[a2]));
        assert(free_of_separator(color_words()[c1]));
        assert(free_of_separator(color_words()[c2]));
        lemma_join_code_injective(
            adjective_words()[a1],
            color_words()[c1],
            animal_words()[n1],
            adjective_words()[a2],
            color_words()[c2],
            animal_words()[n2],
        );
        if a1 != a2 {
            lemma_table_entries_distinct(adjective_words(), a1, a2);
        }
        if c1 != c2 {
            lemma_table_entries_distinct(color_words(), c1, c2);
        }
        if n1 != n2 {
            lemma_table_entries_distinct(animal_words(), n1, n2);
        }
        lemma_code_indices_injective(id1, id2);
    }
}

/// The identifier whose code is made of the adjective, color and animal at
/// positions `i`, `j` and `k`: the mixed-radix number whose digits undo the
/// offsets of `code_indices`.
pub open spec fn id_of_code_indices(i: int, j: int, k: int) -> int {
    let base_adjective = (i - ADJ_OFFSET) % (ADJ_COUNT as int);
    let base_color = (j - base_adjective * COLOR_OFFSET_STEP - COLOR_OFFSET) % (COL_COUNT as int);
    let base_animal = (k - base_color * ANIMAL_OFFSET_STEP - base_adjective * ANIMAL_ADJ_STEP
        - ANIMAL_OFFSET) % (ANIM_COUNT as int);
    base_adjective + (ADJ_COUNT as int) * (base_color + (COL_COUNT as int) * base_animal)
}

/// Undoing a shift modulo `m` and shifting again gives back the residue.
proof fn lemma_undo_shift(x: int, t: int, m: int)
    requires
        0 < m,
        0 <= x < m,
    ensures
        0 <= (x - t) % m < m,
        ((x - t) % m + t) % m == x,
{
    vstd::arithmetic::div_mod::lemma_fundamental_div_mod(x - t, m);
    let q = (x - t) / m;
    let r = (x - t) % m;
    assert(r + t == m * (-q) + x) by (nonlinear_arith)
        requires
            x - t == m * q + r,
    ;
    vstd::arithmetic::div_mod::lemma_mod_multiples_vanish(-q, x, m);
    vstd::arithmetic::div_mod::lemma_small_mod(x as nat, m as nat);
}

/// The mixed-radix digits of `a + 90 * (c + 147 * n)` are `a`, `c` and `n`.
proof fn lemma_digits_of_id(a: int, c: int, n: int)
    requires
        0 <= a < 90,
        0 <= c < 147,
        0 <= n < 223,
    ensures
        0 <= a + 90 * (c + 147 * n) <= MAX_ID,
        (a + 90 * (c + 147 * n)) % 90 == a,
        ((a + 90 * (c + 147 * n)) / 90) % 147 == c,
        ((a + 90 * (c + 147 * n)) / 90 / 147) % 223 == n,
{
    let id = a + 90 * (c + 147 * n);
    vstd::arithmetic::div_mod::lemma_fundamental_div_mod_converse(id, 90, c + 147 * n, a);
    vstd::arithmetic::div_mod::lemma_fundamental_div_mod_converse(c + 147 * n, 147, n, c);
    vstd::arithmetic::div_mod::lemma_small_mod(n as nat, 223);
}

/// Every combination of an adjective, a color and an animal is the code of an
/// identifier that has a code: together with
/// `lemma_distinct_ids_have_distinct_codes`, identifiers up to `MAX_ID` and
/// word combinations correspond one to one.
pub proof fn lemma_every_word_combination_is_a_code(i: int, j: int, k: int)
    requires
        0 <= i < ADJ_COUNT,
        0 <= j < COL_COUNT,
        0 <= k < ANIM_COUNT,
    ensures
        0 <= id_of_code_indices(i, j, k) <= MAX_ID,
        code_indices(id_of_code_indices(i, j, k)) == (i, j, k),
        referral_code_text(id_of_code_indices(i, j, k)) == join_code(
            adjective_words()[i],
            color_words()[j],
            animal_words()[k],
        ),
{
    lemma_undo_shift(i, 17, 90);
    let a = (i - 17) % 90;
    lemma_undo_shift(j, a * 37 + 29, 147);
    let c = (j - (a * 37 + 29)) % 147;
    assert(c == (j - a * 37 - 29) % 147);
    lemma_undo_shift(k, c * 83 + a * 97 + 41, 223);
    let n = (k - (c * 83 + a * 97 + 41)) % 223;
    assert(n == (k - c * 83 - a * 97 - 41) % 223);
    lemma_digits_of_id(a, c, n);
    let id = a + 90 * (c + 147 * n);
    assert(id == id_of_code_indices(i, j, k));
    assert(code_indices(id) == (i, j, k));
}

/// A listing line is the identifier's digits, a space, then its code: the
/// digits before the first space read back as the identifier.
pub proof fn lemma_code_line_parts(id: int)
    requires
        0 <= id,
    ensures
        forall|j: int|
            0 <= j < decimal_text(id as nat).len() ==> is_digit_char(#[trigger] code_line_text(id)[j]),
        code_line_text(id)[decimal_text(id as nat).len() as int] == ' ',
        digits_value(code_line_text(id).take(decimal_text(id as nat).len() as int)) == id,
        code_line_text(id).skip(decimal_text(id as nat).len() as int + 1) == referral_code_text(id),
{
    lemma_decimal_text_reads_back(id as nat);
    let digits = decimal_text(id as nat);
    let line = code_line_text(id);
    assert(line.take(digits.len() as int) =~= digits);
    assert(line.skip(digits.len() as int + 1) =~= referral_code_text(id));
    assert forall|j: int| 0 <= j < digits.len() implies is_digit_char(#[trigger] line[j]) by {
        assert(line[j] == digits[j]);
    }
}

} // verus!
