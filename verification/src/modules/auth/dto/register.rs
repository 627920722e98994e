//! Registration DTO and its checks.

use crate::common::error::AppError;
use crate::common::text::{
    all_white_space, ascii_lower, lemma_ascii_lower_same_case, lemma_ascii_lower_shape,
    lemma_trim_chars_fixed_by_case, lemma_trim_chars_idempotent,
    lemma_trim_chars_ignores_surrounding_white_space, lowercase_chars, to_lowercase, trim,
    trim_chars, to_chars,
};
use vstd::prelude::*;
use vstd::string::StrSliceExecFns;

verus! {

/// Registration request body.
pub struct RegisterRequest {
    /// Email.
    pub email: String,
    /// Password.
    pub password: String,
    /// Display name.
    pub display_name: String,
}

/// Index of the first `c` in `s` at or after `i`, or `s.len()` when there is none.
pub open spec fn find_char(s: Seq<char>, c: char, i: int) -> int
    decreases s.len() - i,
{
    if i < 0 || i >= s.len() {
        s.len() as int
    } else if s[i] == c {
        i
    } else {
        find_char(s, c, i + 1)
    }
}

/// The simple email check: split at the first `@`, the part before it is not empty, and the
/// part after it is not empty, neither starts nor ends with `.`, and holds a `.`.
pub open spec fn valid_email(e: Seq<char>) -> bool {
    let at = find_char(e, '@', 0);
    let domain = e.subrange(at + 1, e.len() as int);
    &&& at < e.len()
    &&& at > 0
    &&& domain.len() > 0
    &&& domain[0] != '.'
    &&& domain[domain.len() - 1] != '.'
    &&& domain.contains('.')
}

/// The normalized form of a submitted email: trimmed, then lowercased (for ASCII text,
/// `A`-`Z` to `a`-`z`; beyond ASCII, the Unicode mapping that `str::to_lowercase` applies).
pub open spec fn normalized_email(email: Seq<char>) -> Seq<char> {
    let t = trim_chars(email);
    if vstd::utf8::is_ascii_chars(t) {
        ascii_lower(t)
    } else {
        lowercase_chars(t)
    }
}

/// Why a registration with this (already normalized) email, this password and this raw
/// display name is refused, checked in this order; `None` when it is accepted.
pub open spec fn registration_rejection(
    email: Seq<char>,
    password: Seq<char>,
    display_name: Seq<char>,
) -> Option<Seq<char>> {
    let name = trim_chars(display_name);
    if email.len() == 0 {
        Some("邮箱不能为空"@)
    } else if !valid_email(email) {
        Some("邮箱格式不正确"@)
    } else if password.len() == 0 {
        Some("密码不能为空"@)
    } else if password.len() < 8 {
        Some("密码长度不能少于 8 个字符"@)
    } else if name.len() == 0 {
        Some("显示名称不能为空"@)
    } else if name.len() > 100 {
        Some("显示名称长度不能超过 100 个字符"@)
    } else {
        None
    }
}

/// What registration returns for this (already normalized) email, password and raw display name.
pub open spec fn registration_outcome(
    r: Result<RegisterRequest, AppError>,
    email: Seq<char>,
    password: Seq<char>,
    display_name: Seq<char>,
) -> bool {
    match registration_rejection(email, password, display_name) {
        Some(m) => r matches Err(AppError::BadRequest(x)) && x@ == m,
        None => r matches Ok(req) && req.email@ == email && req.password@ == password
            && req.display_name@ == trim_chars(display_name),
    }
}

impl RegisterRequest {
    /// Checks the request and returns it cleaned: the email trimmed and lowercased, the
    /// display name trimmed; or the first rule it breaks, as a 400.
    pub fn validate(self) -> (r: Result<Self, AppError>)
        ensures
            registration_outcome(
                r,
                normalized_email(self.email@),
                self.password@,
                self.display_name@,
            ),
    {
        let email = to_lowercase(trim(self.email.as_str()).as_str());
        check_registration(email, self.password, self.display_name)
    }
}

/// The registration rules applied to an already normalized email, the password and the raw
/// display name; returns the cleaned request or the first rule broken.
pub fn check_registration(email: String, password: String, display_name: String) -> (r: Result<
    RegisterRequest,
    AppError,
>)
    ensures
        registration_outcome(r, email@, password@, display_name@),
{
    if email.as_str().unicode_len() == 0 {
        return Err(AppError::BadRequest("邮箱不能为空"));
    }
    if !is_valid_email(email.as_str()) {
        return Err(AppError::BadRequest("邮箱格式不正确"));
    }
    let password_len = password.as_str().unicode_len();
    if password_len == 0 {
        return Err(AppError::BadRequest("密码不能为空"));
    }
    if password_len < 8 {
        return Err(AppError::BadRequest("密码长度不能少于 8 个字符"));
    }
    let display_name = trim(display_name.as_str());
    let name_len = display_name.as_str().unicode_len();
    if name_len == 0 {
        return Err(AppError::BadRequest("显示名称不能为空"));
    }
    if name_len > 100 {
        return Err(AppError::BadRequest("显示名称长度不能超过 100 个字符"));
    }
    Ok(RegisterRequest { email, password, display_name })
}

/// The simple email check (see [`valid_email`]).
pub fn is_valid_email(email: &str) -> (b: bool)
    ensures
        b == valid_email(email@),
{
    let v = to_chars(email);
    let n = v.len();
    let mut at: usize = 0;
    while at < n && v[at] != '@'
        invariant
            at <= n == v@.len(),
            find_char(v@, '@', 0) == find_char(v@, '@', at as int),
        decreases n - at,
    {
        at = at + 1;
    }
    if at == n || at == 0 || at + 1 == n {
        return false;
    }
    let ghost domain = v@.subrange(at + 1, n as int);
    if v[at + 1] == '.' || v[n - 1] == '.' {
        assert(domain[0] == v@[at + 1]);
        assert(domain[domain.len() - 1] == v@[n - 1]);
        return false;
    }
    let mut k: usize = at + 1;
    while k < n
        invariant
            at + 1 <= k <= n == v@.len(),
            domain == v@.subrange(at + 1, n as int),
            v@ == email@,
            0 < at,
            at + 1 < n,
            find_char(v@, '@', 0) == at,
            v@[at + 1] != '.',
            v@[n - 1] != '.',
            forall|j: int| at + 1 <= j < k ==> v@[j] != '.',
        decreases n - k,
    {
        if v[k] == '.' {
            assert(domain[k - at - 1] == '.');
            assert(domain.contains('.'));
            return true;
        }
        k = k + 1;
    }
    assert forall|j: int| 0 <= j < domain.len() implies domain[j] != '.' by {
        assert(domain[j] == v@[at + 1 + j]);
    }
    false
}

/// An accepted registration is clean: a non-empty valid email, a password of at least 8
/// chars, and a display name of 1 to 100 chars with no white space at either end.
pub proof fn lemma_accepted_registration_is_clean(
    r: Result<RegisterRequest, AppError>,
    email: Seq<char>,
    password: Seq<char>,
    display_name: Seq<char>,
)
    requires
        registration_outcome(r, email, password, display_name),
        r is Ok,
    ensures
        r matches Ok(req) && {
            &&& req.email@.len() > 0 && valid_email(req.email@)
            &&& req.password@.len() >= 8
            &&& 1 <= req.display_name@.len() <= 100
            &&& trim_chars(req.display_name@) == req.display_name@
        },
{
    lemma_trim_chars_idempotent(display_name);
}

/// Checking an accepted registration again accepts it unchanged.
pub proof fn lemma_registration_check_idempotent(
    first: Result<RegisterRequest, AppError>,
    email: Seq<char>,
    password: Seq<char>,
    display_name: Seq<char>,
    second: Result<RegisterRequest, AppError>,
)
    requires
        registration_outcome(first, email, password, display_name),
        first matches Ok(req) && registration_outcome(
            second,
            req.email@,
            req.password@,
            req.display_name@,
        ),
    ensures
        second matches Ok(again) && first matches Ok(req) && again.email@ == req.email@
            && again.password@ == req.password@ && again.display_name@ == req.display_name@,
{
    lemma_trim_chars_idempotent(display_name);
}

/// White space around an email does not change its normalized form.
pub proof fn lemma_normalized_email_ignores_padding(
    before: Seq<char>,
    email: Seq<char>,
    after: Seq<char>,
)
    requires
        all_white_space(before),
        all_white_space(after),
    ensures
        normalized_email(before + email + after) == normalized_email(email),
{
    lemma_trim_chars_ignores_surrounding_white_space(before, email, after);
}

/// Normalizing an email whose trimmed text is ASCII a second time changes nothing.
pub proof fn lemma_normalized_email_idempotent(email: Seq<char>)
    requires
        vstd::utf8::is_ascii_chars(trim_chars(email)),
    ensures
        normalized_email(normalized_email(email)) == normalized_email(email),
{
    let t = trim_chars(email);
    let n = ascii_lower(t);
    lemma_trim_chars_idempotent(email);
    lemma_ascii_lower_shape(t);
    lemma_trim_chars_fixed_by_case(n, t);
    lemma_ascii_lower_same_case(n, t);
}

/// Validating an accepted registration again (its email's trimmed text being ASCII) accepts
/// it and gives it back unchanged.
pub proof fn lemma_validate_idempotent(
    request: RegisterRequest,
    first: Result<RegisterRequest, AppError>,
    second: Result<RegisterRequest, AppError>,
)
    requires
        vstd::utf8::is_ascii_chars(trim_chars(request.email@)),
        registration_outcome(
            first,
            normalized_email(request.email@),
            request.password@,
            request.display_name@,
        ),
        first matches Ok(req) && registration_outcome(
            second,
            normalized_email(req.email@),
            req.password@,
            req.display_name@,
        ),
    ensures
        second matches Ok(again) && first matches Ok(req) && again.email@ == req.email@
            && again.password@ == req.password@ && again.display_name@ == req.display_name@,
{
    lemma_normalized_email_idempotent(request.email@);
    lemma_registration_check_idempotent(
        first,
        normalized_email(request.email@),
        request.password@,
        request.display_name@,
        second,
    );
}

/// `find_char` gives the first index at or after `i` that holds `c`.
proof fn lemma_find_char_first(s: Seq<char>, c: char, i: int, k: int)
    requires
        0 <= i <= k <= s.len(),
        forall|j: int| i <= j < k ==> s[j] != c,
        k == s.len() || s[k] == c,
    ensures
        find_char(s, c, i) == k,
    decreases k - i,
{
    if i < k {
        lemma_find_char_first(s, c, i + 1, k);
    }
}

/// What `find_char` returns from `i`: an index at or after `i` with no `c` before it, holding
/// `c` unless it is the end.
proof fn lemma_find_char_shape(s: Seq<char>, c: char, i: int)
    requires
        0 <= i <= s.len(),
    ensures
        i <= find_char(s, c, i) <= s.len(),
        forall|j: int| i <= j < find_char(s, c, i) ==> s[j] != c,
        find_char(s, c, i) < s.len() ==> s[find_char(s, c, i)] == c,
    decreases s.len() - i,
{
    if i < s.len() && s[i] != c {
        lemma_find_char_shape(s, c, i + 1);
    }
}

/// An email is valid whenever it is a non-empty part without `@`, then `@`, then a non-empty
/// domain that holds at least one `.` (any number of them) and neither starts nor ends with
/// one.
pub proof fn lemma_valid_email_from_parts(local: Seq<char>, domain: Seq<char>)
    requires
        local.len() > 0,
        !local.contains('@'),
        domain.len() > 0,
        domain[0] != '.',
        domain[domain.len() - 1] != '.',
        domain.contains('.'),
    ensures
        valid_email(local + seq!['@'] + domain),
{
    let e = local + seq!['@'] + domain;
    let at = local.len() as int;
    assert forall|j: int| 0 <= j < at implies e[j] != '@' by {
        assert(e[j] == local[j]);
        if e[j] == '@' {
            assert(local.contains('@'));
        }
    }
    assert(e[at] == '@');
    lemma_find_char_first(e, '@', 0, at);
    assert(e.subrange(at + 1, e.len() as int) =~= domain);
}

/// Every valid email splits into such parts: the text before its first `@` (non-empty, no
/// `@`) and the domain after it (non-empty, holding a `.`, neither starting nor ending with
/// one).
pub proof fn lemma_valid_email_parts(e: Seq<char>) -> (parts: (Seq<char>, Seq<char>))
    requires
        valid_email(e),
    ensures
        e == parts.0 + seq!['@'] + parts.1,
        parts.0.len() > 0,
        !parts.0.contains('@'),
        parts.1.len() > 0,
        parts.1[0] != '.',
        parts.1[parts.1.len() - 1] != '.',
        parts.1.contains('.'),
{
    let at = find_char(e, '@', 0);
    lemma_find_char_shape(e, '@', 0);
    let local = e.subrange(0, at);
    let domain = e.subrange(at + 1, e.len() as int);
    assert(e =~= local + seq!['@'] + domain);
    assert(!local.contains('@')) by {
        if local.contains('@') {
            let j = choose|j: int| 0 <= j < local.len() && local[j] == '@';
            assert(e[j] == local[j]);
        }
    }
    (local, domain)
}

} // verus!
