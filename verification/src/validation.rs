//! Field rules for user and post input. Every rule is a pure predicate that
//! names the first reason for which a value is refused.

use vstd::prelude::*;
use crate::text::{contains_char, lowercased, unicode_lowercase, unicode_numeric, unicode_uppercase, same_text,
    trimmed};

verus! {

/// The shape of an e-mail address: a local part of letters, digits and
/// `._%+-`, an `@`, a dotted domain, and a top-level name of two or more letters.
pub const EMAIL_PATTERN: &'static str = "^[a-zA-Z0-9._%+-]+@[a-zA-Z0-9.-]+\\.[a-zA-Z]{2,}$";

/// One or more ASCII letters and nothing else.
pub const LETTERS_PATTERN: &'static str = "^[A-Za-z]+$";

/// One or more ASCII digits and nothing else.
pub const DIGITS_PATTERN: &'static str = "^[0-9]+$";

/// The punctuation of which a password must hold at least one character.
pub const SPECIAL_CHARACTERS: &'static str = "!@#$%^&*()_+-=[]{}; ':\"\\|,.<>/?";

/// What the regular-expression engine answers for `pattern` on `text`:
/// `None` where it refuses the pattern, otherwise whether the pattern
/// matches somewhere in `text`.
pub uninterp spec fn regex_match(pattern: Seq<char>, text: Seq<char>) -> Option<bool>;

/// Compiles `pattern` with `regex::Regex::new` and asks `Regex::is_match`
/// about `text`. The answer is a function of the two texts alone; a pattern
/// that the engine refuses gives `None`.
#[verifier::external_body]
fn pattern_matches(pattern: &str, text: &str) -> (answer: Option<bool>)
    ensures
        answer == regex_match(pattern@, text@),
{
    match regex::Regex::new(pattern) {
        Ok(re) => Some(re.is_match(text)),
        Err(_) => None,
    }
}

/// A verdict as contracts speak of it: the refusal's message by its characters.
pub open spec fn verdict(r: Result<(), String>) -> Result<(), Seq<char>> {
    match r {
        Ok(_) => Ok(()),
        Err(message) => Err(message@),
    }
}

/// The e-mail rule over what was measured of the address.
pub open spec fn email_rule(empty: bool, chars: nat, shape: Option<bool>) -> Result<(), Seq<char>> {
    if empty {
        Err("Email is required"@)
    } else if chars > 250 {
        Err("Email is too long"@)
    } else if shape != Some(true) {
        Err("Email is invalid"@)
    } else {
        Ok(())
    }
}

/// The password rule over what was measured of the password.
pub open spec fn password_rule(
    empty: bool,
    chars: nat,
    space: bool,
    upper: bool,
    lower: bool,
    digit: bool,
    special: bool,
) -> Result<(), Seq<char>> {
    if empty {
        Err("Password is required"@)
    } else if chars < 6 || chars > 20 {
        Err("Password must be 6-20 characters"@)
    } else if space {
        Err("Password must not contain spaces"@)
    } else if !upper {
        Err("Password must have at least 1 uppercase letter"@)
    } else if !lower {
        Err("Password must have at least 1 lowercase letter"@)
    } else if !digit {
        Err("Password must have at least 1 number"@)
    } else if !special {
        Err("Password must have at least 1 special character"@)
    } else {
        Ok(())
    }
}

/// The first-name rule over what was measured of the name.
pub open spec fn firstname_rule(empty: bool, chars: nat, letters: Option<bool>) -> Result<(), Seq<char>> {
    if empty {
        Err("First name is required"@)
    } else if chars < 3 || chars > 30 {
        Err("Firstname must be 3-30 characters"@)
    } else if letters != Some(true) {
        Err("Firstname must contain only letters"@)
    } else {
        Ok(())
    }
}

/// The last-name rule over what was measured of the name.
pub open spec fn lastname_rule(empty: bool, chars: nat, letters: Option<bool>) -> Result<(), Seq<char>> {
    if empty {
        Err("Last name is required"@)
    } else if chars < 1 || chars > 20 {
        Err("Lastname must be 1-20 characters"@)
    } else if letters != Some(true) {
        Err("Lastname must contain only letters"@)
    } else {
        Ok(())
    }
}

/// The phone rule over what was measured of the number.
pub open spec fn phone_rule(empty: bool, chars: nat, digits: Option<bool>) -> Result<(), Seq<char>> {
    if empty {
        Err("Phone is required"@)
    } else if chars < 10 || chars > 15 {
        Err("Phone must be 10-15 digits"@)
    } else if digits != Some(true) {
        Err("Phone must contain only numbers"@)
    } else {
        Ok(())
    }
}

/// The index of the last `.` in `name`, or -1 where it holds none.
pub open spec fn last_dot(name: Seq<char>) -> int
    decreases name.len(),
{
    if name.len() == 0 {
        -1
    } else if name.last() == '.' {
        name.len() - 1
    } else {
        last_dot(name.drop_last())
    }
}

/// The extension of `name`: what follows its last `.`. A name that holds
/// no `.` has none.
pub open spec fn extension(name: Seq<char>) -> Option<Seq<char>> {
    if last_dot(name) < 0 {
        None
    } else {
        Some(name.subrange(last_dot(name) + 1, name.len() as int))
    }
}

/// Whether `lowered`, an extension in lowercase, names an accepted image format.
pub open spec fn accepted_extension(lowered: Seq<char>) -> bool {
    lowered == "jpg"@ || lowered == "jpeg"@ || lowered == "png"@ || lowered == "webp"@
}

/// The message with which a filename of another type is refused.
pub open spec fn image_type_refusal() -> Seq<char> {
    "Image type must be jpeg, jpg,webp or png "@
}

/// The image-type rule over the lowercase extension of a filename.
pub open spec fn image_type_rule(lowered: Seq<char>) -> Result<(), Seq<char>> {
    if accepted_extension(lowered) {
        Ok(())
    } else {
        Err(image_type_refusal())
    }
}

/// The post-name rule over what was measured of the name.
pub open spec fn post_name_rule(blank: bool, chars: nat) -> Result<(), Seq<char>> {
    if blank {
        Err("Name is required"@)
    } else if chars < 2 || chars > 100 {
        Err("Name length must be between 2 and 100 characters"@)
    } else {
        Ok(())
    }
}

/// The post-description rule over what was measured of the description.
pub open spec fn post_description_rule(blank: bool, chars: nat) -> Result<(), Seq<char>> {
    if blank {
        Err("Description is required"@)
    } else if chars < 3 || chars > 500 {
        Err("Description length must be between 3 and 500 characters"@)
    } else {
        Ok(())
    }
}

/// What the e-mail rule says of `email`.
pub open spec fn email_verdict(email: Seq<char>) -> Result<(), Seq<char>> {
    email_rule(email.len() == 0, email.len(), regex_match(EMAIL_PATTERN@, email))
}

/// Whether `s` holds an uppercase character.
pub open spec fn has_uppercase(s: Seq<char>) -> bool {
    exists|i: int| 0 <= i < s.len() && unicode_uppercase(#[trigger] s[i])
}

/// Whether `s` holds a lowercase character.
pub open spec fn has_lowercase(s: Seq<char>) -> bool {
    exists|i: int| 0 <= i < s.len() && unicode_lowercase(#[trigger] s[i])
}

/// Whether `s` holds a numeric character.
pub open spec fn has_numeric(s: Seq<char>) -> bool {
    exists|i: int| 0 <= i < s.len() && unicode_numeric(#[trigger] s[i])
}

/// Whether `s` holds one of the [`SPECIAL_CHARACTERS`].
pub open spec fn has_special(s: Seq<char>) -> bool {
    exists|i: int| 0 <= i < s.len() && SPECIAL_CHARACTERS@.contains(#[trigger] s[i])
}

/// What the password rule says of `password`.
pub open spec fn password_verdict(password: Seq<char>) -> Result<(), Seq<char>> {
    password_rule(
        password.len() == 0,
        password.len(),
        password.contains(' '),
        has_uppercase(password),
        has_lowercase(password),
        has_numeric(password),
        has_special(password),
    )
}

/// What the first-name rule says of `name`.
pub open spec fn firstname_verdict(name: Seq<char>) -> Result<(), Seq<char>> {
    firstname_rule(name.len() == 0, name.len(), regex_match(LETTERS_PATTERN@, name))
}

/// What the last-name rule says of `name`.
pub open spec fn lastname_verdict(name: Seq<char>) -> Result<(), Seq<char>> {
    lastname_rule(name.len() == 0, name.len(), regex_match(LETTERS_PATTERN@, name))
}

/// What the phone rule says of `ph`.
pub open spec fn phone_verdict(ph: Seq<char>) -> Result<(), Seq<char>> {
    phone_rule(ph.len() == 0, ph.len(), regex_match(DIGITS_PATTERN@, ph))
}

/// What the image-type rule says of `filename`.
pub open spec fn image_type_verdict(filename: Seq<char>) -> Result<(), Seq<char>> {
    match extension(filename) {
        Some(ending) => image_type_rule(lowercased(ending)),
        None => Err(image_type_refusal()),
    }
}

/// What the post-name rule says of `name`.
pub open spec fn post_name_verdict(name: Seq<char>) -> Result<(), Seq<char>> {
    post_name_rule(trimmed(name).len() == 0, name.len())
}

/// What the post-description rule says of `desc`.
pub open spec fn post_description_verdict(desc: Seq<char>) -> Result<(), Seq<char>> {
    post_description_rule(trimmed(desc).len() == 0, desc.len())
}

/// What the image-set rule says of `names`: a set holds at least one name,
/// and every name passes the image-type rule.
pub open spec fn post_images_verdict(names: Seq<Seq<char>>) -> Result<(), Seq<char>> {
    if names.len() == 0 {
        Err("At least one image is required"@)
    } else if forall|i: int| 0 <= i < names.len() ==> #[trigger] image_type_verdict(names[i]) is Ok {
        Ok(())
    } else {
        Err(image_type_refusal())
    }
}

/// Unfolds [`last_dot`] by one character at the end.
proof fn last_dot_push(s: Seq<char>, c: char)
    ensures
        last_dot(s.push(c)) == if c == '.' { s.len() as int } else { last_dot(s) },
{
    assert(s.push(c).drop_last() == s);
}

/// The index of the last `.` in `name`, where there is one.
fn last_dot_index(name: &str) -> (r: Option<usize>)
    ensures
        match r {
            Some(i) => i == last_dot(name@),
            None => last_dot(name@) == -1,
        },
{
    let length: usize = name.unicode_len();
    let mut dot: Option<usize> = None;
    let mut index: usize = 0;
    for c in it: name.chars()
        invariant
            it.seq() == name@,
            length == name@.len(),
            index == it.index(),
            match dot {
                Some(i) => i == last_dot(name@.take(index as int)),
                None => last_dot(name@.take(index as int)) == -1,
            },
    {
        proof {
            assert(name@.take(index + 1) == name@.take(index as int).push(c));
            last_dot_push(name@.take(index as int), c);
        }
        if c == '.' {
            dot = Some(index);
        }
        index = index + 1;
    }
    assert(name@.take(index as int) == name@);
    dot
}

/// The field rules. The type holds no state; its functions are the rules.
pub struct Validator;

impl Validator {
    /// Decides the e-mail rule from the address's measures and the engine's answer.
    pub fn email_verdict_from(empty: bool, chars: usize, shape: Option<bool>) -> (r: Result<(), String>)
        ensures
            verdict(r) == email_rule(empty, chars as nat, shape),
    {
        if empty {
            return Err("Email is required".to_owned());
        }
        if chars > 250 {
            return Err("Email is too long".to_owned());
        }
        match shape {
            Some(true) => Ok(()),
            _ => Err("Email is invalid".to_owned()),
        }
    }

    /// An address is accepted when it is not empty, holds at most 250 characters
    /// and has the shape of [`EMAIL_PATTERN`].
    pub fn validate_email(email: &str) -> (r: Result<(), String>)
        ensures
            verdict(r) == email_verdict(email@),
    {
        let shape = pattern_matches(EMAIL_PATTERN, email);
        Self::email_verdict_from(email.is_empty(), email.unicode_len(), shape)
    }

    /// Decides the password rule from what was found in the password.
    pub fn password_verdict_from(
        empty: bool,
        chars: usize,
        space: bool,
        upper: bool,
        lower: bool,
        digit: bool,
        special: bool,
    ) -> (r: Result<(), String>)
        ensures
            verdict(r) == password_rule(empty, chars as nat, space, upper, lower, digit, special),
    {
        if empty {
            return Err("Password is required".to_owned());
        }
        if chars < 6 || chars > 20 {
            return Err("Password must be 6-20 characters".to_owned());
        }
        if space {
            return Err("Password must not contain spaces".to_owned());
        }
        if !upper {
            return Err("Password must have at least 1 uppercase letter".to_owned());
        }
        if !lower {
            return Err("Password must have at least 1 lowercase letter".to_owned());
        }
        if !digit {
            return Err("Password must have at least 1 number".to_owned());
        }
        if !special {
            return Err("Password must have at least 1 special character".to_owned());
        }
        Ok(())
    }

    /// A password is accepted when it holds 6 to 20 characters, holds no space,
    /// and holds an uppercase, a lowercase, a numeric and a special character.
    pub fn validate_password(password: &str) -> (r: Result<(), String>)
        ensures
            verdict(r) == password_verdict(password@),
    {
        let mut space: bool = false;
        let mut upper: bool = false;
        let mut lower: bool = false;
        let mut digit: bool = false;
        let mut special: bool = false;
        for c in it: password.chars()
            invariant
                it.seq() == password@,
                space <==> exists|j: int| 0 <= j < it.index() && password@[j] == ' ',
                upper <==> exists|j: int| 0 <= j < it.index() && unicode_uppercase(#[trigger] password@[j]),
                lower <==> exists|j: int| 0 <= j < it.index() && unicode_lowercase(#[trigger] password@[j]),
                digit <==> exists|j: int| 0 <= j < it.index() && unicode_numeric(#[trigger] password@[j]),
                special <==> exists|j: int| 0 <= j < it.index() && SPECIAL_CHARACTERS@.contains(#[trigger] password@[j]),
        {
            if c == ' ' {
                space = true;
            }
            if c.is_uppercase() {
                upper = true;
            }
            if c.is_lowercase() {
                lower = true;
            }
            if c.is_numeric() {
                digit = true;
            }
            if contains_char(SPECIAL_CHARACTERS, c) {
                special = true;
            }
        }
        Self::password_verdict_from(
            password.is_empty(),
            password.unicode_len(),
            space,
            upper,
            lower,
            digit,
            special,
        )
    }

    /// Decides the first-name rule from the name's measures and the engine's answer.
    pub fn firstname_verdict_from(empty: bool, chars: usize, letters: Option<bool>) -> (r: Result<(), String>)
        ensures
            verdict(r) == firstname_rule(empty, chars as nat, letters),
    {
        if empty {
            return Err("First name is required".to_owned());
        }
        if chars < 3 || chars > 30 {
            return Err("Firstname must be 3-30 characters".to_owned());
        }
        match letters {
            Some(true) => Ok(()),
            _ => Err("Firstname must contain only letters".to_owned()),
        }
    }

    /// A first name is accepted when it holds 3 to 30 characters and has the
    /// shape of [`LETTERS_PATTERN`].
    pub fn validate_firstname(name: &str) -> (r: Result<(), String>)
        ensures
            verdict(r) == firstname_verdict(name@),
    {
        let letters = pattern_matches(LETTERS_PATTERN, name);
        Self::firstname_verdict_from(name.is_empty(), name.unicode_len(), letters)
    }

    /// Decides the last-name rule from the name's measures and the engine's answer.
    pub fn lastname_verdict_from(empty: bool, chars: usize, letters: Option<bool>) -> (r: Result<(), String>)
        ensures
            verdict(r) == lastname_rule(empty, chars as nat, letters),
    {
        if empty {
            return Err("Last name is required".to_owned());
        }
        if chars < 1 || chars > 20 {
            return Err("Lastname must be 1-20 characters".to_owned());
        }
        match letters {
            Some(true) => Ok(()),
            _ => Err("Lastname must contain only letters".to_owned()),
        }
    }

    /// A last name is accepted when it holds 1 to 20 characters and has the
    /// shape of [`LETTERS_PATTERN`].
    pub fn validate_lastname(name: &str) -> (r: Result<(), String>)
        ensures
            verdict(r) == lastname_verdict(name@),
    {
        let letters = pattern_matches(LETTERS_PATTERN, name);
        Self::lastname_verdict_from(name.is_empty(), name.unicode_len(), letters)
    }

    /// Decides the phone rule from the number's measures and the engine's answer.
    pub fn phone_verdict_from(empty: bool, chars: usize, digits: Option<bool>) -> (r: Result<(), String>)
        ensures
            verdict(r) == phone_rule(empty, chars as nat, digits),
    {
        if empty {
            return Err("Phone is required".to_owned());
        }
        if chars < 10 || chars > 15 {
            return Err("Phone must be 10-15 digits".to_owned());
        }
        match digits {
            Some(true) => Ok(()),
            _ => Err("Phone must contain only numbers".to_owned()),
        }
    }

    /// A phone number is accepted when it holds 10 to 15 characters and has the
    /// shape of [`DIGITS_PATTERN`].
    pub fn validate_phone(ph: &str) -> (r: Result<(), String>)
        ensures
            verdict(r) == phone_verdict(ph@),
    {
        let digits = pattern_matches(DIGITS_PATTERN, ph);
        Self::phone_verdict_from(ph.is_empty(), ph.unicode_len(), digits)
    }

    /// Decides the image-type rule from a filename's extension in lowercase.
    pub fn image_type_verdict_from(lowered: &str) -> (r: Result<(), String>)
        ensures
            verdict(r) == image_type_rule(lowered@),
    {
        if same_text(lowered, "jpg") || same_text(lowered, "jpeg") || same_text(lowered, "png")
            || same_text(lowered, "webp") {
            Ok(())
        } else {
            Err("Image type must be jpeg, jpg,webp or png ".to_owned())
        }
    }

    /// A filename is accepted when it has an extension and that is, in
    /// lowercase, one of `jpg`, `jpeg`, `png`, `webp`. A name without a
    /// `.` has no extension and is refused.
    pub fn validate_image_type(filename: &str) -> (r: Result<(), String>)
        ensures
            verdict(r) == image_type_verdict(filename@),
    {
        match last_dot_index(filename) {
            None => Err("Image type must be jpeg, jpg,webp or png ".to_owned()),
            Some(dot) => {
                proof {
                    last_dot_bound(filename@);
                }
                let length: usize = filename.unicode_len();
                let ending = filename.substring_char(dot + 1, length);
                let lowered = ending.to_lowercase();
                Self::image_type_verdict_from(lowered.as_str())
            },
        }
    }

    /// Decides the post-name rule from whether the name is blank and its length.
    pub fn post_name_verdict_from(blank: bool, chars: usize) -> (r: Result<(), String>)
        ensures
            verdict(r) == post_name_rule(blank, chars as nat),
    {
        if blank {
            return Err("Name is required".to_owned());
        }
        if chars < 2 || chars > 100 {
            return Err("Name length must be between 2 and 100 characters".to_owned());
        }
        Ok(())
    }

    /// A post name is accepted when it is not blank and holds 2 to 100 characters.
    pub fn validate_post_name(name: &str) -> (r: Result<(), String>)
        ensures
            verdict(r) == post_name_verdict(name@),
    {
        Self::post_name_verdict_from(name.trim().is_empty(), name.unicode_len())
    }

    /// Decides the post-description rule from whether the text is blank and its length.
    pub fn post_description_verdict_from(blank: bool, chars: usize) -> (r: Result<(), String>)
        ensures
            verdict(r) == post_description_rule(blank, chars as nat),
    {
        if blank {
            return Err("Description is required".to_owned());
        }
        if chars < 3 || chars > 500 {
            return Err("Description length must be between 3 and 500 characters".to_owned());
        }
        Ok(())
    }

    /// A post description is accepted when it is not blank and holds 3 to 500 characters.
    pub fn validate_post_description(desc: &str) -> (r: Result<(), String>)
        ensures
            verdict(r) == post_description_verdict(desc@),
    {
        Self::post_description_verdict_from(desc.trim().is_empty(), desc.unicode_len())
    }

    /// A set of image names is accepted when it is not empty and each name
    /// passes the image-type rule.
    pub fn validate_post_images(filenames: &[String]) -> (r: Result<(), String>)
        ensures
            verdict(r) == post_images_verdict(filenames.deep_view()),
    {
        if filenames.len() == 0 {
            return Err("At least one image is required".to_owned());
        }
        let mut i: usize = 0;
        while i < filenames.len()
            invariant
                i <= filenames.len(),
                filenames.len() > 0,
                forall|j: int| 0 <= j < i ==> #[trigger] image_type_verdict(filenames.deep_view()[j]) is Ok,
            decreases filenames.len() - i,
        {
            let checked = Self::validate_image_type(filenames[i].as_str());
            proof {
                assert(filenames.deep_view()[i as int] == filenames[i as int]@);
            }
            match checked {
                Ok(_) => {},
                Err(message) => {
                    assert(image_type_verdict(filenames.deep_view()[i as int]) is Err);
                    return Err(message);
                },
            }
            i = i + 1;
        }
        Ok(())
    }
}

/// The last `.` lies inside the name.
proof fn last_dot_bound(name: Seq<char>)
    ensures
        -1 <= last_dot(name) < name.len(),
    decreases name.len(),
{
    if name.len() > 0 && name.last() != '.' {
        last_dot_bound(name.drop_last());
    }
}

} // verus!
