//! A motorcycle to be registered: its model, year, Jordanian plate number,
//! VIN, chassis number, colour and notes.

use vstd::prelude::*;

use crate::text::{
    all_ascii, all_ascii_chars, ascii_upper, find_forbidden_control, has_forbidden_control,
    is_ascii_digit, is_ascii_digit_char, is_ascii_lower, is_ascii_lower_char, is_ascii_upper,
    is_ascii_upper_char, is_ascii_char, lemma_trimmed_unchanged, opt_as_str, opt_chars,
    string_from_chars, trim_is_idempotent, trim_text, trimmed, upper_chars, upper_seq,
};

verus! {

pub const EARLIEST_MODEL_YEAR: i32 = 1885;

pub const VIN_LENGTH: usize = 17;

pub const MAX_CHASSIS_NUMBER_LENGTH: usize = 64;

pub const MAX_MODEL_LENGTH: usize = 80;

pub const MAX_NOTES_LENGTH: usize = 2000;

#[derive(Debug, Clone, PartialEq, Eq)]
pub struct PlateNumber(String);

#[derive(Debug, Clone, Copy, PartialEq, Eq)]
pub enum PlateNumberValidationError {
    Blank,
    InvalidCharacter,
    InvalidFormat,
}

impl View for PlateNumber {
    type V = Seq<char>;

    closed spec fn view(&self) -> Seq<char> {
        self.0@
    }
}

pub open spec fn is_plate_char(c: char) -> bool {
    is_ascii_digit(c) || c == '-'
}

/// A dash at either end or two dashes in a row.
pub open spec fn misplaced_dash(t: Seq<char>) -> bool {
    ||| t[0] == '-'
    ||| t[t.len() - 1] == '-'
    ||| exists|i: int| 0 <= i < t.len() - 1 && #[trigger] t[i] == '-' && t[i + 1] == '-'
}

/// What `PlateNumber::parse` gives: digit groups separated by single dashes.
pub open spec fn plate_outcome(input: Seq<char>) -> Result<Seq<char>, PlateNumberValidationError> {
    let t = trimmed(input);
    if t.len() == 0 {
        Err(PlateNumberValidationError::Blank)
    } else if exists|i: int| 0 <= i < t.len() && !is_plate_char(#[trigger] t[i]) {
        Err(PlateNumberValidationError::InvalidCharacter)
    } else if misplaced_dash(t) {
        Err(PlateNumberValidationError::InvalidFormat)
    } else {
        Ok(t)
    }
}

impl PlateNumber {
    #[verifier::loop_isolation(false)]
    pub fn parse(input: &str) -> (r: Result<Self, PlateNumberValidationError>)
        ensures
            match r {
                Ok(plate) => plate_outcome(input@) == Ok::<
                    Seq<char>,
                    PlateNumberValidationError,
                >(plate@),
                Err(e) => plate_outcome(input@) == Err::<Seq<char>, PlateNumberValidationError>(e),
            },
    {
        let (text, t) = trim_text(input);
        let n = t.len();
        if n == 0 {
            return Err(PlateNumberValidationError::Blank);
        }
        let mut i: usize = 0;
        while i < n
            invariant
                i <= n == t@.len(),
                forall|k: int| 0 <= k < i ==> is_plate_char(#[trigger] t@[k]),
            decreases n - i,
        {
            if !(is_ascii_digit_char(t[i]) || t[i] == '-') {
                assert(!is_plate_char(t@[i as int]));
                return Err(PlateNumberValidationError::InvalidCharacter);
            }
            i = i + 1;
        }
        if t[0] == '-' || t[n - 1] == '-' {
            return Err(PlateNumberValidationError::InvalidFormat);
        }
        let mut j: usize = 0;
        while j + 1 < n
            invariant
                n == t@.len(),
                n >= 1,
                j + 1 <= n,
                forall|k: int| 0 <= k < j ==> !(#[trigger] t@[k] == '-' && t@[k + 1] == '-'),
            decreases n - j,
        {
            if t[j] == '-' && t[j + 1] == '-' {
                assert(t@[j as int] == '-' && t@[j + 1] == '-');
                return Err(PlateNumberValidationError::InvalidFormat);
            }
            j = j + 1;
        }
        Ok(PlateNumber(text))
    }

    pub fn as_str(&self) -> (r: &str)
        ensures
            r@ == self@,
    {
        self.0.as_str()
    }
}

#[derive(Debug, Clone, PartialEq, Eq)]
pub struct Vin(String);

#[derive(Debug, Clone, Copy, PartialEq, Eq)]
pub enum VinValidationError {
    Blank,
    InvalidLength,
    InvalidCharacter,
}

impl View for Vin {
    type V = Seq<char>;

    closed spec fn view(&self) -> Seq<char> {
        self.0@
    }
}

/// An ASCII letter or digit other than I, O and Q (which read like 1 and 0).
pub open spec fn is_vin_char(c: char) -> bool {
    (is_ascii_digit(c) || is_ascii_upper(c) || is_ascii_lower(c)) && c != 'I' && c != 'O' && c
        != 'Q'
}

/// What `Vin::parse` gives: seventeen ASCII letters and digits, upper-cased.
pub open spec fn vin_outcome(input: Seq<char>) -> Result<Seq<char>, VinValidationError> {
    let t = trimmed(input);
    if t.len() == 0 {
        Err(VinValidationError::Blank)
    } else if !all_ascii(t) {
        Err(VinValidationError::InvalidCharacter)
    } else if t.len() != 17 {
        Err(VinValidationError::InvalidLength)
    } else if exists|i: int| 0 <= i < t.len() && !is_vin_char(#[trigger] upper_seq(t)[i]) {
        Err(VinValidationError::InvalidCharacter)
    } else {
        Ok(upper_seq(t))
    }
}

impl Vin {
    #[verifier::loop_isolation(false)]
    pub fn parse(input: &str) -> (r: Result<Self, VinValidationError>)
        ensures
            match r {
                Ok(vin) => vin_outcome(input@) == Ok::<Seq<char>, VinValidationError>(vin@),
                Err(e) => vin_outcome(input@) == Err::<Seq<char>, VinValidationError>(e),
            },
    {
        let (_, t) = trim_text(input);
        if t.len() == 0 {
            return Err(VinValidationError::Blank);
        }
        if !all_ascii_chars(&t) {
            return Err(VinValidationError::InvalidCharacter);
        }
        if t.len() != VIN_LENGTH {
            return Err(VinValidationError::InvalidLength);
        }
        let normalized = upper_chars(&t);
        let n = normalized.len();
        let mut i: usize = 0;
        while i < n
            invariant
                i <= n == normalized@.len(),
                normalized@ == upper_seq(t@),
                forall|k: int| 0 <= k < i ==> is_vin_char(#[trigger] normalized@[k]),
            decreases n - i,
        {
            let c = normalized[i];
            if !((is_ascii_digit_char(c) || is_ascii_upper_char(c) || is_ascii_lower_char(c)) && c
                != 'I' && c != 'O' && c != 'Q') {
                assert(!is_vin_char(upper_seq(t@)[i as int]));
                return Err(VinValidationError::InvalidCharacter);
            }
            i = i + 1;
        }
        Ok(Vin(string_from_chars(&normalized)))
    }

    pub fn as_str(&self) -> (r: &str)
        ensures
            r@ == self@,
    {
        self.0.as_str()
    }
}

#[derive(Debug, Clone, PartialEq, Eq)]
pub struct ChassisNumber(String);

#[derive(Debug, Clone, Copy, PartialEq, Eq)]
pub enum ChassisNumberValidationError {
    Blank,
    InvalidLength,
    InvalidCharacter,
}

impl View for ChassisNumber {
    type V = Seq<char>;

    closed spec fn view(&self) -> Seq<char> {
        self.0@
    }
}

/// Upper-case ASCII letters, digits, dash, slash and dot.
pub open spec fn is_chassis_char(c: char) -> bool {
    is_ascii_upper(c) || is_ascii_digit(c) || c == '-' || c == '/' || c == '.'
}

/// What `ChassisNumber::parse` gives: up to 64 such characters, upper-cased.
pub open spec fn chassis_outcome(input: Seq<char>) -> Result<Seq<char>, ChassisNumberValidationError> {
    let t = trimmed(input);
    if t.len() == 0 {
        Err(ChassisNumberValidationError::Blank)
    } else if !all_ascii(t) {
        Err(ChassisNumberValidationError::InvalidCharacter)
    } else if t.len() > 64 {
        Err(ChassisNumberValidationError::InvalidLength)
    } else if exists|i: int| 0 <= i < t.len() && !is_chassis_char(#[trigger] upper_seq(t)[i]) {
        Err(ChassisNumberValidationError::InvalidCharacter)
    } else {
        Ok(upper_seq(t))
    }
}

impl ChassisNumber {
    #[verifier::loop_isolation(false)]
    pub fn parse(input: &str) -> (r: Result<Self, ChassisNumberValidationError>)
        ensures
            match r {
                Ok(chassis) => chassis_outcome(input@) == Ok::<
                    Seq<char>,
                    ChassisNumberValidationError,
                >(chassis@),
                Err(e) => chassis_outcome(input@) == Err::<Seq<char>, ChassisNumberValidationError>(
                    e,
                ),
            },
    {
        let (_, t) = trim_text(input);
        if t.len() == 0 {
            return Err(ChassisNumberValidationError::Blank);
        }
        if !all_ascii_chars(&t) {
            return Err(ChassisNumberValidationError::InvalidCharacter);
        }
        if t.len() > MAX_CHASSIS_NUMBER_LENGTH {
            return Err(ChassisNumberValidationError::InvalidLength);
        }
        let normalized = upper_chars(&t);
        let n = normalized.len();
        let mut i: usize = 0;
        while i < n
            invariant
                i <= n == normalized@.len(),
                normalized@ == upper_seq(t@),
                forall|k: int| 0 <= k < i ==> is_chassis_char(#[trigger] normalized@[k]),
            decreases n - i,
        {
            let c = normalized[i];
            if !(is_ascii_upper_char(c) || is_ascii_digit_char(c) || c == '-' || c == '/' || c
                == '.') {
                assert(!is_chassis_char(upper_seq(t@)[i as int]));
                return Err(ChassisNumberValidationError::InvalidCharacter);
            }
            i = i + 1;
        }
        Ok(ChassisNumber(string_from_chars(&normalized)))
    }

    pub fn as_str(&self) -> (r: &str)
        ensures
            r@ == self@,
    {
        self.0.as_str()
    }
}

#[derive(Debug, PartialEq, Eq)]
pub struct NewMotorcycleInput {
    pub make_id: i64,
    pub model: String,
    pub year: Option<i32>,
    pub plate_number: String,
    pub vin: Option<String>,
    pub chassis_number: Option<String>,
    pub color_id: i64,
    pub notes: Option<String>,
}

#[derive(Debug, PartialEq, Eq)]
pub struct NewMotorcycle {
    make_id: i64,
    model: String,
    year: Option<i32>,
    plate_number: PlateNumber,
    vin: Option<Vin>,
    chassis_number: Option<ChassisNumber>,
    color_id: i64,
    notes: Option<String>,
}

pub struct NewMotorcycleView {
    pub make_id: i64,
    pub model: Seq<char>,
    pub year: Option<i32>,
    pub plate_number: Seq<char>,
    pub vin: Option<Seq<char>>,
    pub chassis_number: Option<Seq<char>>,
    pub color_id: i64,
    pub notes: Option<Seq<char>>,
}

pub open spec fn opt_vin(o: Option<Vin>) -> Option<Seq<char>> {
    match o {
        Some(v) => Some(v@),
        None => None,
    }
}

pub open spec fn opt_chassis(o: Option<ChassisNumber>) -> Option<Seq<char>> {
    match o {
        Some(c) => Some(c@),
        None => None,
    }
}

impl View for NewMotorcycle {
    type V = NewMotorcycleView;

    closed spec fn view(&self) -> NewMotorcycleView {
        NewMotorcycleView {
            make_id: self.make_id,
            model: self.model@,
            year: self.year,
            plate_number: self.plate_number@,
            vin: opt_vin(self.vin),
            chassis_number: opt_chassis(self.chassis_number),
            color_id: self.color_id,
            notes: opt_chars(self.notes),
        }
    }
}

#[derive(Debug, Clone, Copy, PartialEq, Eq)]
pub enum MotorcycleValidationError {
    BlankModel,
    ModelTooLong,
    ModelContainsControlCharacter,
    InvalidYear,
    InvalidPlateNumber(PlateNumberValidationError),
    InvalidVin(VinValidationError),
    InvalidChassisNumber(ChassisNumberValidationError),
    NotesTooLong,
}

/// Trimmed optional text, where blank text counts as absent.
pub open spec fn trimmed_optional(value: Option<Seq<char>>) -> Option<Seq<char>> {
    match value {
        Some(v) => if trimmed(v).len() == 0 {
            None
        } else {
            Some(trimmed(v))
        },
        None => None,
    }
}

/// A model year from the first motorcycle (1885) to next year.
pub open spec fn valid_year(year: Option<i32>, current_year: i32) -> bool {
    match year {
        Some(y) => 1885 <= y && y <= current_year + 1,
        None => true,
    }
}

/// What `NewMotorcycle::new` gives, checking the fields in order.
pub open spec fn new_motorcycle_outcome(input: NewMotorcycleInput, current_year: i32) -> Result<
    NewMotorcycleView,
    MotorcycleValidationError,
> {
    let model = trimmed(input.model@);
    if model.len() == 0 {
        Err(MotorcycleValidationError::BlankModel)
    } else if model.len() > 80 {
        Err(MotorcycleValidationError::ModelTooLong)
    } else if has_forbidden_control(model, false) {
        Err(MotorcycleValidationError::ModelContainsControlCharacter)
    } else if !valid_year(input.year, current_year) {
        Err(MotorcycleValidationError::InvalidYear)
    } else {
        match plate_outcome(input.plate_number@) {
            Err(e) => Err(MotorcycleValidationError::InvalidPlateNumber(e)),
            Ok(plate) => {
                let vin: Result<Option<Seq<char>>, MotorcycleValidationError> = match input.vin {
                    None => Ok(None),
                    Some(v) => match vin_outcome(v@) {
                        Err(e) => Err(MotorcycleValidationError::InvalidVin(e)),
                        Ok(x) => Ok(Some(x)),
                    },
                };
                match vin {
                    Err(e) => Err(e),
                    Ok(vin) => {
                        let chassis: Result<Option<Seq<char>>, MotorcycleValidationError> =
                            match trimmed_optional(opt_chars(input.chassis_number)) {
                            None => Ok(None),
                            Some(c) => match chassis_outcome(c) {
                                Err(e) => Err(MotorcycleValidationError::InvalidChassisNumber(e)),
                                Ok(x) => Ok(Some(x)),
                            },
                        };
                        match chassis {
                            Err(e) => Err(e),
                            Ok(chassis_number) => {
                                let notes = trimmed_optional(opt_chars(input.notes));
                                if notes.is_some() && notes.unwrap().len() > 2000 {
                                    Err(MotorcycleValidationError::NotesTooLong)
                                } else {
                                    Ok(
                                        NewMotorcycleView {
                                            make_id: input.make_id,
                                            model,
                                            year: input.year,
                                            plate_number: plate,
                                            vin,
                                            chassis_number,
                                            color_id: input.color_id,
                                            notes,
                                        },
                                    )
                                }
                            },
                        }
                    },
                }
            },
        }
    }
}

impl NewMotorcycle {
    pub fn new(input: NewMotorcycleInput, current_year: i32) -> (r: Result<
        Self,
        MotorcycleValidationError,
    >)
        ensures
            match r {
                Ok(m) => new_motorcycle_outcome(input, current_year) == Ok::<
                    NewMotorcycleView,
                    MotorcycleValidationError,
                >(m@),
                Err(e) => new_motorcycle_outcome(input, current_year) == Err::<
                    NewMotorcycleView,
                    MotorcycleValidationError,
                >(e),
            },
    {
        let NewMotorcycleInput {
            make_id,
            model,
            year,
            plate_number,
            vin,
            chassis_number,
            color_id,
            notes,
        } = input;
        let (model, model_chars) = trim_text(model.as_str());
        if model_chars.len() == 0 {
            return Err(MotorcycleValidationError::BlankModel);
        }
        if model_chars.len() > MAX_MODEL_LENGTH {
            return Err(MotorcycleValidationError::ModelTooLong);
        }
        if find_forbidden_control(&model_chars, false) {
            return Err(MotorcycleValidationError::ModelContainsControlCharacter);
        }
        match year {
            Some(y) => {
                if y < EARLIEST_MODEL_YEAR || (y as i64) > (current_year as i64) + 1 {
                    return Err(MotorcycleValidationError::InvalidYear);
                }
            },
            None => {},
        }
        let plate_number = match PlateNumber::parse(plate_number.as_str()) {
            Ok(plate) => plate,
            Err(e) => {
                return Err(MotorcycleValidationError::InvalidPlateNumber(e));
            },
        };
        let vin = match vin {
            None => None,
            Some(v) => match Vin::parse(v.as_str()) {
                Ok(parsed) => Some(parsed),
                Err(e) => {
                    return Err(MotorcycleValidationError::InvalidVin(e));
                },
            },
        };
        let chassis_number = match normalize_optional_text(chassis_number) {
            None => None,
            Some(c) => match ChassisNumber::parse(c.as_str()) {
                Ok(parsed) => Some(parsed),
                Err(e) => {
                    return Err(MotorcycleValidationError::InvalidChassisNumber(e));
                },
            },
        };
        let notes = normalize_optional_text(notes);
        match &notes {
            Some(text) => {
                if crate::text::chars_of(text.as_str()).len() > MAX_NOTES_LENGTH {
                    return Err(MotorcycleValidationError::NotesTooLong);
                }
            },
            None => {},
        }
        Ok(
            NewMotorcycle {
                make_id,
                model,
                year,
                plate_number,
                vin,
                chassis_number,
                color_id,
                notes,
            },
        )
    }

    pub fn make_id(&self) -> (r: i64)
        ensures
            r == self@.make_id,
    {
        self.make_id
    }

    pub fn model(&self) -> (r: &str)
        ensures
            r@ == self@.model,
    {
        self.model.as_str()
    }

    pub fn year(&self) -> (r: Option<i32>)
        ensures
            r == self@.year,
    {
        self.year
    }

    pub fn plate_number(&self) -> (r: &PlateNumber)
        ensures
            r@ == self@.plate_number,
    {
        &self.plate_number
    }

    pub fn vin(&self) -> (r: Option<&Vin>)
        ensures
            match r {
                Some(v) => self@.vin == Some(v@),
                None => self@.vin.is_none(),
            },
    {
        match &self.vin {
            Some(v) => Some(v),
            None => None,
        }
    }

    pub fn chassis_number(&self) -> (r: Option<&ChassisNumber>)
        ensures
            match r {
                Some(c) => self@.chassis_number == Some(c@),
                None => self@.chassis_number.is_none(),
            },
    {
        match &self.chassis_number {
            Some(c) => Some(c),
            None => None,
        }
    }

    pub fn color_id(&self) -> (r: i64)
        ensures
            r == self@.color_id,
    {
        self.color_id
    }

    pub fn notes(&self) -> (r: Option<&str>)
        ensures
            match r {
                Some(s) => self@.notes == Some(s@),
                None => self@.notes.is_none(),
            },
    {
        opt_as_str(&self.notes)
    }
}

/// Trims optional text and drops it when nothing is left.
fn normalize_optional_text(value: Option<String>) -> (r: Option<String>)
    ensures
        opt_chars(r) == trimmed_optional(opt_chars(value)),
{
    match value {
        None => None,
        Some(value) => {
            let (text, chars) = trim_text(value.as_str());
            if chars.len() == 0 {
                None
            } else {
                Some(text)
            }
        },
    }
}

} // verus!

verus! {

/// Parsing a plate number that was already parsed gives it back.
pub proof fn plate_parsing_is_idempotent(input: Seq<char>)
    requires
        plate_outcome(input) is Ok,
    ensures
        plate_outcome(plate_outcome(input)->Ok_0) == plate_outcome(input),
{
    trim_is_idempotent(input);
}

/// Upper-cased text whose characters are ASCII letters, digits or
/// punctuation is its own trimmed and upper-cased form.
proof fn lemma_normalized_identity(t: Seq<char>)
    requires
        t.len() > 0,
        forall|i: int|
            0 <= i < t.len() ==> {
                let c = #[trigger] upper_seq(t)[i];
                &&& 0x21 <= (c as u32) <= 0x7e
                &&& !is_ascii_lower(c)
            },
    ensures
        trimmed(upper_seq(t)) == upper_seq(t),
        all_ascii(upper_seq(t)),
        upper_seq(upper_seq(t)) == upper_seq(t),
{
    let v = upper_seq(t);
    assert(0x21 <= (v[0] as u32) <= 0x7e);
    assert(0x21 <= (v[v.len() - 1] as u32) <= 0x7e);
    lemma_trimmed_unchanged(v);
    assert forall|i: int| 0 <= i < v.len() implies is_ascii_char(#[trigger] v[i]) by {
        assert(0x21 <= (upper_seq(t)[i] as u32) <= 0x7e);
    }
    assert forall|i: int| 0 <= i < v.len() implies #[trigger] upper_seq(v)[i] == v[i] by {
        assert(!is_ascii_lower(upper_seq(t)[i]));
    }
    assert(upper_seq(v) =~= v);
}

/// An upper-cased character is not a lower-case ASCII letter.
proof fn lemma_upper_is_not_lower(c: char)
    ensures
        !is_ascii_lower(ascii_upper(c)),
{
    if is_ascii_lower(c) {
        assert(((c as u32) - 0x20) as char as u32 == (c as u32) - 0x20);
    }
}

/// Parsing a VIN that was already parsed gives it back.
pub proof fn vin_parsing_is_idempotent(input: Seq<char>)
    requires
        vin_outcome(input) is Ok,
    ensures
        vin_outcome(vin_outcome(input)->Ok_0) == vin_outcome(input),
{
    let t = trimmed(input);
    assert forall|i: int| 0 <= i < t.len() implies {
        let c = #[trigger] upper_seq(t)[i];
        &&& 0x21 <= (c as u32) <= 0x7e
        &&& !is_ascii_lower(c)
    } by {
        assert(is_vin_char(upper_seq(t)[i]));
        lemma_upper_is_not_lower(t[i]);
    }
    lemma_normalized_identity(t);
}

/// Parsing a chassis number that was already parsed gives it back.
pub proof fn chassis_parsing_is_idempotent(input: Seq<char>)
    requires
        chassis_outcome(input) is Ok,
    ensures
        chassis_outcome(chassis_outcome(input)->Ok_0) == chassis_outcome(input),
{
    let t = trimmed(input);
    assert forall|i: int| 0 <= i < t.len() implies {
        let c = #[trigger] upper_seq(t)[i];
        &&& 0x21 <= (c as u32) <= 0x7e
        &&& !is_ascii_lower(c)
    } by {
        assert(is_chassis_char(upper_seq(t)[i]));
        lemma_upper_is_not_lower(t[i]);
    }
    lemma_normalized_identity(t);
}

/// Blank-as-absent trimming changes nothing the second time.
proof fn lemma_trimmed_optional_idempotent(value: Option<Seq<char>>)
    ensures
        trimmed_optional(trimmed_optional(value)) == trimmed_optional(value),
{
    if let Some(v) = value {
        trim_is_idempotent(v);
    }
}

/// A motorcycle entered again exactly as it was registered is registered
/// unchanged: every field is already in the form the rules produce.
pub proof fn registering_a_motorcycle_again_changes_nothing(
    input: NewMotorcycleInput,
    again: NewMotorcycleInput,
    current_year: i32,
)
    requires
        new_motorcycle_outcome(input, current_year) is Ok,
        ({
            let m = new_motorcycle_outcome(input, current_year)->Ok_0;
            &&& again.make_id == m.make_id
            &&& again.model@ == m.model
            &&& again.year == m.year
            &&& again.plate_number@ == m.plate_number
            &&& opt_chars(again.vin) == m.vin
            &&& opt_chars(again.chassis_number) == m.chassis_number
            &&& again.color_id == m.color_id
            &&& opt_chars(again.notes) == m.notes
        }),
    ensures
        new_motorcycle_outcome(again, current_year) == new_motorcycle_outcome(input, current_year),
{
    let m = new_motorcycle_outcome(input, current_year)->Ok_0;
    trim_is_idempotent(input.model@);
    plate_parsing_is_idempotent(input.plate_number@);
    if let Some(v) = input.vin {
        vin_parsing_is_idempotent(v@);
    }
    lemma_trimmed_optional_idempotent(opt_chars(input.notes));
    if let Some(c) = trimmed_optional(opt_chars(input.chassis_number)) {
        chassis_parsing_is_idempotent(c);
        let parsed = chassis_outcome(c)->Ok_0;
        trim_is_idempotent(c);
        assert(trimmed(parsed) == parsed);
        assert(trimmed_optional(Some(parsed)) == Some(parsed));
    }
}

} // verus!
