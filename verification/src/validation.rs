//! Input validation for the registration, login and password forms.
//!
//! Every validator is specified by a function from the input to the message
//! of the first rule it breaks, if any.

use vstd::prelude::*;
use vstd::utf8::encode_utf8;
use crate::text::{chars_of, lowercased, string_of_range, trim_bounds, trimmed, unicode_lowercase, unicode_uppercase};

verus! {

/// One broken rule: the form field and a message for the user.
#[derive(Debug)]
pub struct ValidationError {
    pub field: String,
    pub message: String,
}

impl View for ValidationError {
    type V = (Seq<char>, Seq<char>);

    open spec fn view(&self) -> (Seq<char>, Seq<char>) {
        (self.field@, self.message@)
    }
}

/// The views of a list of errors, in order.
pub open spec fn error_views(errors: Seq<ValidationError>) -> Seq<(Seq<char>, Seq<char>)> {
    errors.map_values(|e: ValidationError| e@)
}

/// Whether `email` has the shape of an e-mail address, as the HTML
/// specification's rule for form fields decides it.
pub uninterp spec fn email_shape_ok(email: Seq<char>) -> bool;

/// `validator::validate_email`: the verdict depends on the text alone; this
/// library names it and states nothing more of it.
#[verifier::external_body]
fn is_valid_email(email: &str) -> (ok: bool)
    ensures
        ok == email_shape_ok(email@),
{
    validator::validate_email(email)
}

/// The number of bytes of `s` in UTF-8.
pub open spec fn byte_len(s: Seq<char>) -> nat {
    encode_utf8(s).len()
}

/// The message of the first rule that an e-mail address breaks, from what
/// was measured of it: whether it is empty, its length in bytes, and whether
/// it has the shape of an address.
pub open spec fn email_problem_of(empty: bool, bytes: nat, shape_ok: bool) -> Option<Seq<char>> {
    if empty {
        Some("Email is required"@)
    } else if bytes > 254 {
        Some("Email is too long"@)
    } else if !shape_ok {
        Some("Invalid email format"@)
    } else {
        None
    }
}

/// The message of the first rule that `email` breaks.
pub open spec fn email_problem(email: Seq<char>) -> Option<Seq<char>> {
    email_problem_of(email.len() == 0, byte_len(email), email_shape_ok(email))
}

/// Whether `s` is one of the passwords that are refused as too common.
pub open spec fn is_common_password(s: Seq<char>) -> bool {
    ||| s == "12345678"@
    ||| s == "password"@
    ||| s == "123456789"@
    ||| s == "1234567890"@
    ||| s == "qwerty123"@
    ||| s == "password123"@
    ||| s == "admin123"@
    ||| s == "letmein"@
    ||| s == "welcome123"@
    ||| s == "monkey123"@
    ||| s == "dragon123"@
    ||| s == "master123"@
    ||| s == "hello123"@
    ||| s == "login123"@
    ||| s == "princess123"@
    ||| s == "qwertyuiop"@
    ||| s == "123456789a"@
    ||| s == "password1"@
    ||| s == "1234567890a"@
    ||| s == "admin1234"@
}

/// Whether `c` is an ASCII decimal digit.
pub open spec fn is_ascii_digit(c: char) -> bool {
    '0' <= c <= '9'
}

/// Whether `c` counts as a special character in a password.
pub open spec fn is_special_char(c: char) -> bool {
    ||| c == '!' || c == '@' || c == '#' || c == '$' || c == '%' || c == '^' || c == '&'
    ||| c == '*' || c == '(' || c == ')' || c == '_' || c == '+' || c == '-' || c == '='
    ||| c == '[' || c == ']' || c == '{' || c == '}' || c == ';' || c == '\'' || c == ':'
    ||| c == '|' || c == ',' || c == '.' || c == '<' || c == '>' || c == '/' || c == '?'
}

/// Whether `c` may stand in a username: an ASCII letter, a digit or `_`.
pub open spec fn is_username_char(c: char) -> bool {
    ('a' <= c <= 'z') || ('A' <= c <= 'Z') || ('0' <= c <= '9') || c == '_'
}

pub open spec fn has_uppercase(s: Seq<char>) -> bool {
    exists|i: int| 0 <= i < s.len() && unicode_uppercase(#[trigger] s[i])
}

pub open spec fn has_lowercase(s: Seq<char>) -> bool {
    exists|i: int| 0 <= i < s.len() && unicode_lowercase(#[trigger] s[i])
}

pub open spec fn has_digit(s: Seq<char>) -> bool {
    exists|i: int| 0 <= i < s.len() && is_ascii_digit(#[trigger] s[i])
}

pub open spec fn has_special(s: Seq<char>) -> bool {
    exists|i: int| 0 <= i < s.len() && is_special_char(#[trigger] s[i])
}

pub open spec fn all_username_chars(s: Seq<char>) -> bool {
    forall|i: int| 0 <= i < s.len() ==> is_username_char(#[trigger] s[i])
}

/// What a scan of a password finds: a space, an uppercase letter, a
/// lowercase letter, a digit, a special character.
#[derive(Debug, Clone, Copy, PartialEq, Eq, Structural)]
pub struct PasswordScan {
    pub space: bool,
    pub upper: bool,
    pub lower: bool,
    pub digit: bool,
    pub special: bool,
}

/// What a scan of `password` finds.
pub open spec fn scan_of(password: Seq<char>) -> PasswordScan {
    PasswordScan {
        space: password.contains(' '),
        upper: has_uppercase(password),
        lower: has_lowercase(password),
        digit: has_digit(password),
        special: has_special(password),
    }
}

/// The message of the first rule that a password breaks, from what was
/// measured of it: whether it is empty, its length in bytes, what a scan of
/// it found, and whether its lowercase form is a common password.
pub open spec fn password_problem_of(
    empty: bool,
    bytes: nat,
    scan: PasswordScan,
    common: bool,
) -> Option<Seq<char>> {
    if empty {
        Some("Password is required"@)
    } else if bytes < 8 {
        Some("Password must be at least 8 characters long"@)
    } else if bytes > 128 {
        Some("Password is too long"@)
    } else if scan.space {
        Some("Password cannot contain spaces"@)
    } else if common {
        Some("Password is too common, please choose a stronger password"@)
    } else if !scan.upper {
        Some("Password must contain at least one uppercase letter"@)
    } else if !scan.lower {
        Some("Password must contain at least one lowercase letter"@)
    } else if !scan.digit {
        Some("Password must contain at least one number"@)
    } else if !scan.special {
        Some("Password must contain at least one special character"@)
    } else {
        None
    }
}

/// The message of the first rule that `password` breaks.
pub open spec fn password_problem(password: Seq<char>) -> Option<Seq<char>> {
    password_problem_of(
        password.len() == 0,
        byte_len(password),
        scan_of(password),
        is_common_password(lowercased(password)),
    )
}

/// The message of the first rule that `username` breaks.
pub open spec fn username_problem(username: Seq<char>) -> Option<Seq<char>> {
    if username.len() == 0 {
        Some("Username is required"@)
    } else if byte_len(username) < 3 {
        Some("Username must be at least 3 characters long"@)
    } else if byte_len(username) > 50 {
        Some("Username is too long"@)
    } else if !all_username_chars(username) {
        Some("Username can only contain letters, numbers, and underscores"@)
    } else {
        None
    }
}

/// What a single-field validator returns for a field whose first broken rule
/// is `problem`.
pub open spec fn field_verdict(
    r: Result<(), ValidationError>,
    field: Seq<char>,
    problem: Option<Seq<char>>,
) -> bool {
    match r {
        Ok(_) => problem is None,
        Err(e) => e.field@ == field && problem == Some(e.message@),
    }
}

/// What a form validator returns for a form whose broken rules are
/// `problems`, in order.
pub open spec fn form_verdict(
    r: Result<(), Vec<ValidationError>>,
    problems: Seq<(Seq<char>, Seq<char>)>,
) -> bool {
    match r {
        Ok(_) => problems.len() == 0,
        Err(errors) => problems.len() > 0 && error_views(errors@) == problems,
    }
}

fn problem(field: &str, message: &str) -> (e: ValidationError)
    ensures
        e.field@ == field@,
        e.message@ == message@,
{
    ValidationError { field: field.to_string(), message: message.to_string() }
}

/// The verdict on an e-mail address, from what was measured of it.
pub fn email_verdict(empty: bool, bytes: usize, shape_ok: bool) -> (r: Result<(), ValidationError>)
    ensures
        field_verdict(r, "email"@, email_problem_of(empty, bytes as nat, shape_ok)),
{
    if empty {
        return Err(problem("email", "Email is required"));
    }
    if bytes > 254 {
        return Err(problem("email", "Email is too long"));
    }
    if shape_ok {
        Ok(())
    } else {
        Err(problem("email", "Invalid email format"))
    }
}

pub fn validate_email(email: &str) -> (r: Result<(), ValidationError>)
    ensures
        field_verdict(r, "email"@, email_problem(email@)),
{
    email_verdict(email.is_empty(), email.as_bytes().len(), is_valid_email(email))
}

/// Whether `lower`, a password in lowercase, is one of the passwords that
/// are refused as too common.
pub fn is_common(lower: String) -> (b: bool)
    ensures
        b == is_common_password(lower@),
{
    lower == "12345678".to_string() || lower == "password".to_string() || lower
        == "123456789".to_string() || lower == "1234567890".to_string() || lower
        == "qwerty123".to_string() || lower == "password123".to_string() || lower
        == "admin123".to_string() || lower == "letmein".to_string() || lower
        == "welcome123".to_string() || lower == "monkey123".to_string() || lower
        == "dragon123".to_string() || lower == "master123".to_string() || lower
        == "hello123".to_string() || lower == "login123".to_string() || lower
        == "princess123".to_string() || lower == "qwertyuiop".to_string() || lower
        == "123456789a".to_string() || lower == "password1".to_string() || lower
        == "1234567890a".to_string() || lower == "admin1234".to_string()
}

fn special_char(c: char) -> (b: bool)
    ensures
        b == is_special_char(c),
{
    c == '!' || c == '@' || c == '#' || c == '$' || c == '%' || c == '^' || c == '&' || c == '*'
        || c == '(' || c == ')' || c == '_' || c == '+' || c == '-' || c == '=' || c == '['
        || c == ']' || c == '{' || c == '}' || c == ';' || c == '\'' || c == ':' || c == '|'
        || c == ',' || c == '.' || c == '<' || c == '>' || c == '/' || c == '?'
}

fn username_char(c: char) -> (b: bool)
    ensures
        b == is_username_char(c),
{
    (c >= 'a' && c <= 'z') || (c >= 'A' && c <= 'Z') || (c >= '0' && c <= '9') || c == '_'
}

fn scan_password(chars: &Vec<char>) -> (scan: PasswordScan)
    ensures
        scan == scan_of(chars@),
{
    let mut scan = PasswordScan {
        space: false,
        upper: false,
        lower: false,
        digit: false,
        special: false,
    };
    let n = chars.len();
    let mut i: usize = 0;
    while i < n
        invariant
            i <= n == chars@.len(),
            scan.space == chars@.take(i as int).contains(' '),
            scan.upper == has_uppercase(chars@.take(i as int)),
            scan.lower == has_lowercase(chars@.take(i as int)),
            scan.digit == has_digit(chars@.take(i as int)),
            scan.special == has_special(chars@.take(i as int)),
        decreases n - i,
    {
        let c = chars[i];
        let ghost before = chars@.take(i as int);
        let ghost after = chars@.take(i + 1);
        proof {
            assert(after =~= before.push(c));
            assert(after[i as int] == c);
            assert(forall|k: int| 0 <= k < i ==> before[k] == after[k]);
            if before.contains(' ') {
                let k = choose|k: int| 0 <= k < before.len() && before[k] == ' ';
                assert(after[k] == ' ');
            }
            if after.contains(' ') && c != ' ' {
                let k = choose|k: int| 0 <= k < after.len() && after[k] == ' ';
                assert(before[k] == ' ');
            }
        }
        if c == ' ' {
            scan.space = true;
        }
        if c.is_uppercase() {
            scan.upper = true;
        }
        if c.is_lowercase() {
            scan.lower = true;
        }
        if c >= '0' && c <= '9' {
            scan.digit = true;
        }
        if special_char(c) {
            scan.special = true;
        }
        i += 1;
    }
    assert(chars@.take(n as int) =~= chars@);
    scan
}

/// The verdict on a password, from what was measured of it. The rules come
/// in a fixed order and the first that is broken decides.
pub fn password_verdict(empty: bool, bytes: usize, scan: PasswordScan, common: bool) -> (r: Result<
    (),
    ValidationError,
>)
    ensures
        field_verdict(r, "password"@, password_problem_of(empty, bytes as nat, scan, common)),
{
    if empty {
        return Err(problem("password", "Password is required"));
    }
    if bytes < 8 {
        return Err(problem("password", "Password must be at least 8 characters long"));
    }
    if bytes > 128 {
        return Err(problem("password", "Password is too long"));
    }
    if scan.space {
        return Err(problem("password", "Password cannot contain spaces"));
    }
    if common {
        return Err(
            problem("password", "Password is too common, please choose a stronger password"),
        );
    }
    if !scan.upper {
        return Err(problem("password", "Password must contain at least one uppercase letter"));
    }
    if !scan.lower {
        return Err(problem("password", "Password must contain at least one lowercase letter"));
    }
    if !scan.digit {
        return Err(problem("password", "Password must contain at least one number"));
    }
    if !scan.special {
        return Err(problem("password", "Password must contain at least one special character"));
    }
    Ok(())
}

pub fn validate_password(password: &str) -> (r: Result<(), ValidationError>)
    ensures
        field_verdict(r, "password"@, password_problem(password@)),
{
    let chars = chars_of(password);
    let scan = scan_password(&chars);
    let common = is_common(password.to_lowercase());
    password_verdict(password.is_empty(), password.as_bytes().len(), scan, common)
}

fn only_username_chars(chars: &Vec<char>) -> (b: bool)
    ensures
        b == all_username_chars(chars@),
{
    let n = chars.len();
    let mut i: usize = 0;
    while i < n
        invariant
            i <= n == chars@.len(),
            forall|k: int| 0 <= k < i ==> is_username_char(#[trigger] chars@[k]),
        decreases n - i,
    {
        if !username_char(chars[i]) {
            return false;
        }
        i += 1;
    }
    true
}

pub fn validate_username(username: &str) -> (r: Result<(), ValidationError>)
    ensures
        field_verdict(r, "username"@, username_problem(username@)),
{
    if username.is_empty() {
        return Err(problem("username", "Username is required"));
    }
    let bytes = username.as_bytes().len();
    if bytes < 3 {
        return Err(problem("username", "Username must be at least 3 characters long"));
    }
    if bytes > 50 {
        return Err(problem("username", "Username is too long"));
    }
    let chars = chars_of(username);
    if !only_username_chars(&chars) {
        return Err(
            problem("username", "Username can only contain letters, numbers, and underscores"),
        );
    }
    Ok(())
}

/// `input` without leading and trailing whitespace.
pub fn sanitize_input(input: &str) -> (out: String)
    ensures
        out@ == trimmed(input@),
{
    let chars = chars_of(input);
    let (from, to) = trim_bounds(&chars);
    string_of_range(&chars, from, to)
}

/// A list of one entry for a field with a problem, of none otherwise.
pub open spec fn problem_entry(field: Seq<char>, problem: Option<Seq<char>>) -> Seq<
    (Seq<char>, Seq<char>),
> {
    match problem {
        Some(message) => seq![(field, message)],
        None => seq![],
    }
}

/// The broken rules of a registration form: username, then e-mail, then
/// password, each trimmed first.
pub open spec fn register_problems(
    username: Seq<char>,
    email: Seq<char>,
    password: Seq<char>,
) -> Seq<(Seq<char>, Seq<char>)> {
    problem_entry("username"@, username_problem(trimmed(username))) + problem_entry(
        "email"@,
        email_problem(trimmed(email)),
    ) + problem_entry("password"@, password_problem(trimmed(password)))
}

/// The broken rules of a login form: the e-mail's, then a missing password.
/// The password's strength is not looked at.
pub open spec fn login_problems(email: Seq<char>, password: Seq<char>) -> Seq<
    (Seq<char>, Seq<char>),
> {
    problem_entry("email"@, email_problem(trimmed(email))) + problem_entry(
        "password"@,
        if trimmed(password).len() == 0 {
            Some("Password is required"@)
        } else {
            None
        },
    )
}

/// The broken rules of a password change: a missing current password, the new
/// password's own, and a new password equal to the current one.
pub open spec fn password_change_problems(current: Seq<char>, new: Seq<char>) -> Seq<
    (Seq<char>, Seq<char>),
> {
    problem_entry(
        "current_password"@,
        if trimmed(current).len() == 0 {
            Some("Current password is required"@)
        } else {
            None
        },
    ) + problem_entry("password"@, password_problem(trimmed(new)))
        + problem_entry(
        "new_password"@,
        if trimmed(current) == trimmed(new) {
            Some("New password must be different from current password"@)
        } else {
            None
        },
    )
}

fn collect(
    errors: &mut Vec<ValidationError>,
    r: Result<(), ValidationError>,
    Ghost(field): Ghost<Seq<char>>,
    Ghost(found): Ghost<Option<Seq<char>>>,
)
    requires
        field_verdict(r, field, found),
    ensures
        error_views(final(errors)@) == error_views(old(errors)@) + problem_entry(field, found),
{
    match r {
        Ok(_) => {
            assert(error_views(errors@) + problem_entry(field, found) =~= error_views(errors@));
        },
        Err(e) => {
            let ghost before = errors@;
            errors.push(e);
            assert(error_views(errors@) =~= error_views(before) + problem_entry(field, found));
        },
    }
}

fn finish(errors: Vec<ValidationError>) -> (r: Result<(), Vec<ValidationError>>)
    ensures
        form_verdict(r, error_views(errors@)),
{
    if errors.len() == 0 {
        Ok(())
    } else {
        Err(errors)
    }
}

pub fn validate_register_payload(username: &str, email: &str, password: &str) -> (r: Result<
    (),
    Vec<ValidationError>,
>)
    ensures
        form_verdict(r, register_problems(username@, email@, password@)),
{
    let mut errors: Vec<ValidationError> = Vec::new();
    let clean_username = sanitize_input(username);
    let clean_email = sanitize_input(email);
    let clean_password = sanitize_input(password);
    assert(error_views(errors@) =~= seq![]);
    collect(
        &mut errors,
        validate_username(clean_username.as_str()),
        Ghost("username"@),
        Ghost(username_problem(clean_username@)),
    );
    collect(
        &mut errors,
        validate_email(clean_email.as_str()),
        Ghost("email"@),
        Ghost(email_problem(clean_email@)),
    );
    collect(
        &mut errors,
        validate_password(clean_password.as_str()),
        Ghost("password"@),
        Ghost(password_problem(clean_password@)),
    );
    assert(error_views(errors@) =~= register_problems(username@, email@, password@));
    finish(errors)
}

fn required(present: bool, field: &str, message: &str) -> (r: Result<(), ValidationError>)
    ensures
        field_verdict(r, field@, if present { None } else { Some(message@) }),
{
    if present {
        Ok(())
    } else {
        Err(problem(field, message))
    }
}

pub fn validate_login_payload(email: &str, password: &str) -> (r: Result<
    (),
    Vec<ValidationError>,
>)
    ensures
        form_verdict(r, login_problems(email@, password@)),
{
    let mut errors: Vec<ValidationError> = Vec::new();
    let clean_email = sanitize_input(email);
    let clean_password = sanitize_input(password);
    assert(error_views(errors@) =~= seq![]);
    collect(
        &mut errors,
        validate_email(clean_email.as_str()),
        Ghost("email"@),
        Ghost(email_problem(clean_email@)),
    );
    let ghost missing = if clean_password@.len() == 0 {
        Some("Password is required"@)
    } else {
        None
    };
    collect(
        &mut errors,
        required(!clean_password.as_str().is_empty(), "password", "Password is required"),
        Ghost("password"@),
        Ghost(missing),
    );
    assert(error_views(errors@) =~= login_problems(email@, password@));
    finish(errors)
}

pub fn validate_password_reset_payload(email: &str) -> (r: Result<(), ValidationError>)
    ensures
        field_verdict(r, "email"@, email_problem(trimmed(email@))),
{
    let clean_email = sanitize_input(email);
    validate_email(clean_email.as_str())
}

pub fn validate_password_change_payload(current_password: &str, new_password: &str) -> (r: Result<
    (),
    Vec<ValidationError>,
>)
    ensures
        form_verdict(r, password_change_problems(current_password@, new_password@)),
{
    let mut errors: Vec<ValidationError> = Vec::new();
    let current = sanitize_input(current_password);
    let new = sanitize_input(new_password);
    assert(error_views(errors@) =~= seq![]);
    let ghost missing = if current@.len() == 0 {
        Some("Current password is required"@)
    } else {
        None
    };
    collect(
        &mut errors,
        required(!current.as_str().is_empty(), "current_password", "Current password is required"),
        Ghost("current_password"@),
        Ghost(missing),
    );
    collect(
        &mut errors,
        validate_password(new.as_str()),
        Ghost("password"@),
        Ghost(password_problem(new@)),
    );
    let ghost same = if current@ == new@ {
        Some("New password must be different from current password"@)
    } else {
        None
    };
    collect(
        &mut errors,
        required(
            !(current == new),
            "new_password",
            "New password must be different from current password",
        ),
        Ghost("new_password"@),
        Ghost(same),
    );
    assert(error_views(errors@) =~= password_change_problems(current_password@, new_password@));
    finish(errors)
}

} // verus!
