//! Profile-backed configuration: locating a section in an INI-style shared
//! configuration file and collecting the four required keys. The parser is
//! line-oriented and forgiving of blank lines and comments, but strict about
//! required keys: no partial configuration is ever accepted. Reading the
//! file and the environment is the driver's job; everything here works on
//! plain values.

use vstd::prelude::*;

use crate::builder::{SsoConfig, SsoConfigV};
use crate::region::Region;
use crate::text::{char_range, chars_to_string, push_chars, to_char_vec};

verus! {

/// The view of [`ProfileSource`].
pub struct ProfileSourceV {
    pub config_file: Option<Seq<char>>,
    pub profile: Option<Seq<char>>,
}

/// A reference to a profile in shared configuration: an optional explicit
/// file path and an optional explicit profile name. Whatever is left
/// unset falls back to the environment, then to the documented defaults.
#[derive(Clone)]
pub struct ProfileSource {
    /// The configuration file path override.
    pub config_file: Option<String>,
    /// The profile name override.
    pub profile: Option<String>,
}

impl View for ProfileSource {
    type V = ProfileSourceV;

    open spec fn view(&self) -> ProfileSourceV {
        ProfileSourceV {
            config_file: self.config_file.deep_view(),
            profile: self.profile.deep_view(),
        }
    }
}

impl Default for ProfileSource {
    /// The default source: no overrides.
    fn default() -> (r: ProfileSource)
        ensures
            r@.config_file is None,
            r@.profile is None,
    {
        ProfileSource::new()
    }
}

impl ProfileSource {
    /// A source with no overrides: file and profile both come from the
    /// environment or the defaults.
    pub fn new() -> (r: ProfileSource)
        ensures
            r@.config_file is None,
            r@.profile is None,
    {
        ProfileSource { config_file: None, profile: None }
    }

    /// Set the location of the shared configuration file.
    pub fn with_config_file(self, path: String) -> (r: ProfileSource)
        ensures
            r@.config_file == Some(path@),
            r@.profile == self@.profile,
    {
        ProfileSource { config_file: Some(path), profile: self.profile }
    }

    /// Set the profile name.
    pub fn with_profile(self, name: String) -> (r: ProfileSource)
        ensures
            r@.config_file == self@.config_file,
            r@.profile == Some(name@),
    {
        ProfileSource { config_file: self.config_file, profile: Some(name) }
    }
}

/// An error indicating missing or invalid SSO configuration.
#[derive(Debug)]
pub struct SsoProfileError {
    /// The error message.
    pub message: String,
}

impl View for SsoProfileError {
    type V = Seq<char>;

    open spec fn view(&self) -> Seq<char> {
        self.message@
    }
}

impl SsoProfileError {
    /// An error with the given message.
    pub fn new(message: String) -> (r: SsoProfileError)
        ensures
            r@ == message@,
    {
        SsoProfileError { message }
    }

    /// The error message.
    pub fn message(&self) -> (r: &str)
        ensures
            r@ == self@,
    {
        self.message.as_str()
    }
}

/// What the driver found when it looked a variable up in the environment.
pub enum EnvValue {
    /// The variable is set to this text.
    Present(String),
    /// The variable is not set.
    Absent,
    /// The variable is set but its value is not valid text; the payload
    /// describes the raw value.
    Invalid(String),
}

/// The view of [`EnvValue`].
pub enum EnvValueV {
    Present(Seq<char>),
    Absent,
    Invalid(Seq<char>),
}

impl View for EnvValue {
    type V = EnvValueV;

    open spec fn view(&self) -> EnvValueV {
        match self {
            EnvValue::Present(s) => EnvValueV::Present(s@),
            EnvValue::Absent => EnvValueV::Absent,
            EnvValue::Invalid(s) => EnvValueV::Invalid(s@),
        }
    }
}

/// The profile name for a given `AWS_PROFILE` environment reading: the
/// variable's text when set, the fixed default `default` when not.
pub open spec fn profile_from_env(v: EnvValueV) -> Result<Seq<char>, Seq<char>> {
    match v {
        EnvValueV::Present(s) => Ok(s),
        EnvValueV::Absent => Ok("default"@),
        EnvValueV::Invalid(d) => Err(
            "invalid profile name in environment variable AWS_PROFILE: "@ + d
                + " contains invalid UTF-8"@,
        ),
    }
}

/// The profile name to use, given what the driver read from `AWS_PROFILE`.
pub fn get_profile_from_env(value: EnvValue) -> (r: Result<String, SsoProfileError>)
    ensures
        match r {
            Ok(s) => profile_from_env(value@) == Ok::<Seq<char>, Seq<char>>(s@),
            Err(e) => profile_from_env(value@) == Err::<Seq<char>, Seq<char>>(e@),
        },
{
    match value {
        EnvValue::Present(s) => Ok(s),
        EnvValue::Absent => Ok(String::from_str("default")),
        EnvValue::Invalid(d) => {
            let mut out: Vec<char> = Vec::new();
            push_chars(&mut out, "invalid profile name in environment variable AWS_PROFILE: ");
            push_chars(&mut out, d.as_str());
            push_chars(&mut out, " contains invalid UTF-8");
            Err(SsoProfileError { message: chars_to_string(&out) })
        },
    }
}

/// The configuration file path for a given `AWS_CONFIG_FILE` environment
/// reading and home directory: the variable's text when set, else
/// `.aws/config` under the home directory.
pub open spec fn config_file_from_env(v: EnvValueV, home: Option<Seq<char>>) -> Result<
    Seq<char>,
    Seq<char>,
> {
    match v {
        EnvValueV::Present(s) => Ok(s),
        EnvValueV::Invalid(d) => Err(
            "invalid path in environment variable AWS_CONFIG_FILE: "@ + d
                + " contains invalid UTF-8"@,
        ),
        EnvValueV::Absent => match home {
            Some(h) => Ok(h + "/.aws/config"@),
            None => Err("could not determine home directory"@),
        },
    }
}

/// The configuration file path to use, given what the driver read from
/// `AWS_CONFIG_FILE` and the home directory.
pub fn get_config_file_from_env(value: EnvValue, home: Option<String>) -> (r: Result<
    String,
    SsoProfileError,
>)
    ensures
        match r {
            Ok(s) => config_file_from_env(value@, home.deep_view()) == Ok::<Seq<char>, Seq<char>>(
                s@,
            ),
            Err(e) => config_file_from_env(value@, home.deep_view()) == Err::<Seq<char>, Seq<char>>(
                e@,
            ),
        },
{
    match value {
        EnvValue::Present(s) => Ok(s),
        EnvValue::Invalid(d) => {
            let mut out: Vec<char> = Vec::new();
            push_chars(&mut out, "invalid path in environment variable AWS_CONFIG_FILE: ");
            push_chars(&mut out, d.as_str());
            push_chars(&mut out, " contains invalid UTF-8");
            Err(SsoProfileError { message: chars_to_string(&out) })
        },
        EnvValue::Absent => match home {
            Some(h) => {
                let mut out: Vec<char> = to_char_vec(h.as_str());
                push_chars(&mut out, "/.aws/config");
                Ok(chars_to_string(&out))
            },
            None => Err(
                SsoProfileError { message: String::from_str("could not determine home directory") },
            ),
        },
    }
}

/// Relies on `dirs_next::home_dir`: no promise is made of the user's home
/// directory, nor that there is one, nor that its path is valid text.
#[verifier::external_body]
fn os_home_dir() -> (r: Option<String>)
{
    dirs_next::home_dir().and_then(|p| p.to_str().map(|s| s.to_owned()))
}

/// The configuration file path to use, given what the driver read from
/// `AWS_CONFIG_FILE`; the fallback consults the OS for the home directory,
/// so the result is [`config_file_from_env`] for whatever home the OS
/// reported.
pub fn locate_config_file(value: EnvValue) -> (r: Result<String, SsoProfileError>)
    ensures
        exists|home: Option<Seq<char>>|
            #[trigger] config_file_from_env(value@, home) == (match r {
                Ok(s) => Ok::<Seq<char>, Seq<char>>(s@),
                Err(e) => Err::<Seq<char>, Seq<char>>(e@),
            }),
{
    let home = os_home_dir();
    let ghost home_v = home.deep_view();
    let r = get_config_file_from_env(value, home);
    proof {
        assert(config_file_from_env(value@, home_v) == (match r {
            Ok(s) => Ok::<Seq<char>, Seq<char>>(s@),
            Err(e) => Err::<Seq<char>, Seq<char>>(e@),
        }));
    }
    r
}

/// The index of the first occurrence of `c` in `s`, or a negative number if
/// `c` does not occur.
pub open spec fn first_at(s: Seq<char>, c: char) -> int
    decreases s.len(),
{
    if s.len() == 0 {
        -1
    } else if s[0] == c {
        0
    } else {
        let r = first_at(s.drop_first(), c);
        if r < 0 {
            -1
        } else {
            r + 1
        }
    }
}

pub proof fn lemma_first_at_found(s: Seq<char>, c: char, k: int)
    requires
        0 <= k < s.len(),
        forall|j: int| 0 <= j < k ==> s[j] != c,
        s[k] == c,
    ensures
        first_at(s, c) == k,
    decreases k,
{
    if k > 0 {
        lemma_first_at_found(s.drop_first(), c, k - 1);
    }
}

pub proof fn lemma_first_at_none(s: Seq<char>, c: char)
    requires
        forall|j: int| 0 <= j < s.len() ==> s[j] != c,
    ensures
        first_at(s, c) == -1,
    decreases s.len(),
{
    if s.len() > 0 {
        lemma_first_at_none(s.drop_first(), c);
    }
}

/// A line with a single trailing carriage return removed.
pub open spec fn strip_cr(s: Seq<char>) -> Seq<char> {
    if s.len() > 0 && s[s.len() - 1] == '\r' {
        s.drop_last()
    } else {
        s
    }
}

/// The lines of `s`: split on line feeds, one trailing carriage return
/// removed from each line, no final empty line after a trailing line feed.
pub open spec fn split_lines(s: Seq<char>) -> Seq<Seq<char>>
    decreases s.len(),
{
    if s.len() == 0 {
        Seq::empty()
    } else {
        let i = first_at(s, '\n');
        if 0 <= i < s.len() {
            seq![strip_cr(s.take(i))] + split_lines(s.skip(i + 1))
        } else {
            seq![strip_cr(s)]
        }
    }
}

/// `s` without leading spaces.
pub open spec fn trim_front(s: Seq<char>) -> Seq<char>
    decreases s.len(),
{
    if s.len() > 0 && s[0] == ' ' {
        trim_front(s.drop_first())
    } else {
        s
    }
}

/// `s` without trailing spaces.
pub open spec fn trim_back(s: Seq<char>) -> Seq<char>
    decreases s.len(),
{
    if s.len() > 0 && s[s.len() - 1] == ' ' {
        trim_back(s.drop_last())
    } else {
        s
    }
}

/// `s` without leading or trailing spaces.
pub open spec fn trim_spaces(s: Seq<char>) -> Seq<char> {
    trim_back(trim_front(s))
}

pub proof fn lemma_trim_front_skip(s: Seq<char>, a: int)
    requires
        0 <= a <= s.len(),
        forall|j: int| 0 <= j < a ==> s[j] == ' ',
        a < s.len() ==> s[a] != ' ',
    ensures
        trim_front(s) == s.skip(a),
    decreases a,
{
    if a == 0 {
        assert(s.skip(0) =~= s);
    } else {
        lemma_trim_front_skip(s.drop_first(), a - 1);
        assert(s.drop_first().skip(a - 1) =~= s.skip(a));
    }
}

pub proof fn lemma_trim_back_take(s: Seq<char>, b: int)
    requires
        0 <= b <= s.len(),
        forall|j: int| b <= j < s.len() ==> s[j] == ' ',
        b > 0 ==> s[b - 1] != ' ',
    ensures
        trim_back(s) == s.take(b),
    decreases s.len() - b,
{
    if b == s.len() {
        assert(s.take(b) =~= s);
        if s.len() > 0 && s[s.len() - 1] == ' ' {
            assert(s[b - 1] != ' ');
            assert(false);
        }
    } else {
        lemma_trim_back_take(s.drop_last(), b);
        assert(s.drop_last().take(b) =~= s.take(b));
    }
}

/// The trimmed characters of `s`.
pub fn trim_of(v: &Vec<char>) -> (r: Vec<char>)
    ensures
        r@ == trim_spaces(v@),
{
    let n: usize = v.len();
    let mut a: usize = 0;
    while a < n && v[a] == ' '
        invariant
            n == v@.len(),
            a <= n,
            forall|j: int| 0 <= j < a ==> v@[j] == ' ',
        decreases n - a,
    {
        a = a + 1;
    }
    proof {
        lemma_trim_front_skip(v@, a as int);
    }
    if a == n {
        proof {
            assert(v@.skip(a as int) =~= Seq::<char>::empty());
            assert(trim_back(Seq::<char>::empty()) == Seq::<char>::empty());
        }
        return Vec::new();
    }
    let mut b: usize = n;
    while b > a && v[b - 1] == ' '
        invariant
            n == v@.len(),
            a <= b <= n,
            forall|j: int| b <= j < n ==> v@[j] == ' ',
        decreases b,
    {
        b = b - 1;
    }
    proof {
        let f = v@.skip(a as int);
        assert(b > a);
        assert(f[b - a - 1] == v@[b - 1]);
        assert forall|j: int| b - a <= j < f.len() implies f[j] == ' ' by {
            assert(f[j] == v@[j + a]);
        }
        lemma_trim_back_take(f, b - a);
        assert(f.take(b - a) =~= v@.subrange(a as int, b as int));
    }
    char_range(v, a, b)
}

/// The section-header prefix that carries an explicit `profile` word.
pub open spec fn profile_prefix() -> Seq<char> {
    seq!['[', 'p', 'r', 'o', 'f', 'i', 'l', 'e', ' ']
}

/// The profile named by a (trimmed) section-header line: the text between
/// `[profile ` and `]`, or between `[` and `]`; `None` when the line is no
/// section header.
pub open spec fn section_name(l: Seq<char>) -> Option<Seq<char>> {
    if l.len() >= 2 && l[l.len() - 1] == ']' {
        let inner = l.drop_last();
        if inner.len() >= 9 && inner.take(9) == profile_prefix() {
            Some(inner.skip(9))
        } else if inner[0] == '[' {
            Some(inner.skip(1))
        } else {
            None
        }
    } else {
        None
    }
}

/// The key/value pair of a (trimmed) line: the text before and after the
/// first `=`, each trimmed; `None` when there is no `=` or either side is
/// empty.
pub open spec fn kv_of(l: Seq<char>) -> Option<(Seq<char>, Seq<char>)> {
    let i = first_at(l, '=');
    if 0 <= i < l.len() {
        let k = trim_spaces(l.take(i));
        let v = trim_spaces(l.skip(i + 1));
        if k.len() > 0 && v.len() > 0 {
            Some((k, v))
        } else {
            None
        }
    } else {
        None
    }
}

/// The view of [`ScanState`].
pub struct ScanStateV {
    pub in_profile: bool,
    pub done: bool,
    pub region: Option<Seq<char>>,
    pub start_url: Option<Seq<char>>,
    pub account_id: Option<Seq<char>>,
    pub role_name: Option<Seq<char>>,
}

/// The scanner's state while it walks the file's lines: whether the wanted
/// section has been entered, whether scanning has stopped at the next
/// header, and the keys collected so far.
pub struct ScanState {
    /// Whether the wanted section has been entered.
    pub in_profile: bool,
    /// Whether scanning stopped at the section header after the wanted one.
    pub done: bool,
    /// The collected `sso_region` value.
    pub region: Option<Vec<char>>,
    /// The collected `sso_start_url` value.
    pub start_url: Option<Vec<char>>,
    /// The collected `sso_account_id` value.
    pub account_id: Option<Vec<char>>,
    /// The collected `sso_role_name` value.
    pub role_name: Option<Vec<char>>,
}

impl View for ScanState {
    type V = ScanStateV;

    open spec fn view(&self) -> ScanStateV {
        ScanStateV {
            in_profile: self.in_profile,
            done: self.done,
            region: match self.region {
                Some(ref v) => Some(v@),
                None => None,
            },
            start_url: match self.start_url {
                Some(ref v) => Some(v@),
                None => None,
            },
            account_id: match self.account_id {
                Some(ref v) => Some(v@),
                None => None,
            },
            role_name: match self.role_name {
                Some(ref v) => Some(v@),
                None => None,
            },
        }
    }
}

/// The scanner's state before any line has been seen.
pub open spec fn scan_init() -> ScanStateV {
    ScanStateV {
        in_profile: false,
        done: false,
        region: None,
        start_url: None,
        account_id: None,
        role_name: None,
    }
}

/// One line's effect on the scanner: blank and `#` lines are ignored; a
/// section header either enters the wanted section, re-enters nothing, or —
/// when the wanted section was already open — stops the scan; inside the
/// wanted section a recognized key records its value, later occurrences
/// winning.
pub open spec fn scan_line(st: ScanStateV, line: Seq<char>, profile: Seq<char>) -> ScanStateV {
    if st.done {
        st
    } else {
        let l = trim_spaces(line);
        if l.len() == 0 || l[0] == '#' {
            st
        } else {
            match section_name(l) {
                Some(name) => {
                    if st.in_profile {
                        ScanStateV { done: true, ..st }
                    } else {
                        ScanStateV { in_profile: name == profile, ..st }
                    }
                },
                None => {
                    if st.in_profile {
                        match kv_of(l) {
                            Some(kv) => {
                                if kv.0 == "sso_region"@ {
                                    ScanStateV { region: Some(kv.1), ..st }
                                } else if kv.0 == "sso_start_url"@ {
                                    ScanStateV { start_url: Some(kv.1), ..st }
                                } else if kv.0 == "sso_account_id"@ {
                                    ScanStateV { account_id: Some(kv.1), ..st }
                                } else if kv.0 == "sso_role_name"@ {
                                    ScanStateV { role_name: Some(kv.1), ..st }
                                } else {
                                    st
                                }
                            },
                            None => st,
                        }
                    } else {
                        st
                    }
                },
            }
        }
    }
}

/// The scanner folded over a sequence of lines.
pub open spec fn scan_lines(st: ScanStateV, lines: Seq<Seq<char>>, profile: Seq<char>) -> ScanStateV
    decreases lines.len(),
{
    if lines.len() == 0 {
        st
    } else {
        scan_lines(scan_line(st, lines[0], profile), lines.drop_first(), profile)
    }
}

/// Whether the first nine characters of `l` (its header's inner text) are
/// exactly `[profile `.
fn is_profile_header(l: &Vec<char>) -> (r: bool)
    requires
        l@.len() >= 10,
    ensures
        r == (l@.drop_last().take(9) == profile_prefix()),
{
    let ghost inner9 = l@.drop_last().take(9);
    proof {
        assert(inner9.len() == 9);
        assert forall|j: int| 0 <= j < 9 implies inner9[j] == l@[j] by {}
    }
    if l[0] != '[' {
        return false;
    }
    if l[1] != 'p' {
        return false;
    }
    if l[2] != 'r' {
        return false;
    }
    if l[3] != 'o' {
        return false;
    }
    if l[4] != 'f' {
        return false;
    }
    if l[5] != 'i' {
        return false;
    }
    if l[6] != 'l' {
        return false;
    }
    if l[7] != 'e' {
        return false;
    }
    if l[8] != ' ' {
        return false;
    }
    proof {
        assert(inner9 =~= profile_prefix());
    }
    true
}

/// The profile named by a (trimmed) section-header line, as characters.
fn section_name_of(l: &Vec<char>) -> (r: Option<Vec<char>>)
    ensures
        match r {
            Some(n) => section_name(l@) == Some(n@),
            None => section_name(l@) is None,
        },
{
    let n: usize = l.len();
    if n < 2 {
        return None;
    }
    if l[n - 1] != ']' {
        return None;
    }
    let ghost inner = l@.drop_last();
    if n >= 10 && is_profile_header(l) {
        let r = char_range(l, 9, n - 1);
        proof {
            assert(inner.skip(9) =~= l@.subrange(9, n - 1));
        }
        Some(r)
    } else if l[0] == '[' {
        let r = char_range(l, 1, n - 1);
        proof {
            assert(inner[0] == l@[0]);
            assert(inner.skip(1) =~= l@.subrange(1, n - 1));
        }
        Some(r)
    } else {
        proof {
            if inner.len() >= 9 && inner.take(9) == profile_prefix() {
                assert(inner.take(9)[0] == inner[0]);
                assert(inner[0] == l@[0]);
            }
        }
        None
    }
}

/// The key/value pair of a (trimmed) line, as characters.
fn kv_of_line(l: &Vec<char>) -> (r: Option<(Vec<char>, Vec<char>)>)
    ensures
        match r {
            Some(p) => kv_of(l@) == Some((p.0@, p.1@)),
            None => kv_of(l@) is None,
        },
{
    let n: usize = l.len();
    let mut i: usize = 0;
    while i < n && l[i] != '='
        invariant
            n == l@.len(),
            i <= n,
            forall|j: int| 0 <= j < i ==> l@[j] != '=',
        decreases n - i,
    {
        i = i + 1;
    }
    if i == n {
        proof {
            lemma_first_at_none(l@, '=');
        }
        return None;
    }
    proof {
        lemma_first_at_found(l@, '=', i as int);
    }
    let left = char_range(l, 0, i);
    let right = char_range(l, i + 1, n);
    proof {
        assert(l@.take(i as int) =~= l@.subrange(0, i as int));
        assert(l@.skip(i as int + 1) =~= l@.subrange(i as int + 1, n as int));
    }
    let k = trim_of(&left);
    let v = trim_of(&right);
    if k.len() > 0 && v.len() > 0 {
        Some((k, v))
    } else {
        None
    }
}

/// Applies one line to the scanner.
fn scan_step(st: ScanState, line: &Vec<char>, profile: &Vec<char>) -> (r: ScanState)
    ensures
        r@ == scan_line(st@, line@, profile@),
{
    if st.done {
        return st;
    }
    let l = trim_of(line);
    let n: usize = l.len();
    if n == 0 || l[0] == '#' {
        return st;
    }
    match section_name_of(&l) {
        Some(name) => {
            if st.in_profile {
                ScanState { done: true, ..st }
            } else {
                let entered = crate::text::chars_eq(&name, profile);
                ScanState { in_profile: entered, ..st }
            }
        },
        None => {
            if st.in_profile {
                match kv_of_line(&l) {
                    Some((k, v)) => {
                        let key_region = to_char_vec("sso_region");
                        let key_start_url = to_char_vec("sso_start_url");
                        let key_account_id = to_char_vec("sso_account_id");
                        let key_role_name = to_char_vec("sso_role_name");
                        if crate::text::chars_eq(&k, &key_region) {
                            ScanState { region: Some(v), ..st }
                        } else if crate::text::chars_eq(&k, &key_start_url) {
                            ScanState { start_url: Some(v), ..st }
                        } else if crate::text::chars_eq(&k, &key_account_id) {
                            ScanState { account_id: Some(v), ..st }
                        } else if crate::text::chars_eq(&k, &key_role_name) {
                            ScanState { role_name: Some(v), ..st }
                        } else {
                            st
                        }
                    },
                    None => st,
                }
            } else {
                st
            }
        },
    }
}

/// A line with a single trailing carriage return removed.
fn strip_cr_of(line: Vec<char>) -> (r: Vec<char>)
    ensures
        r@ == strip_cr(line@),
{
    let n: usize = line.len();
    if n > 0 && line[n - 1] == '\r' {
        let r = char_range(&line, 0, n - 1);
        proof {
            assert(line@.subrange(0, n - 1) =~= line@.drop_last());
        }
        r
    } else {
        line
    }
}

/// The lines of `content`.
fn split_to_lines(content: &str) -> (r: Vec<Vec<char>>)
    ensures
        r.deep_view() == split_lines(content@),
{
    let cv = to_char_vec(content);
    let n: usize = cv.len();
    let mut lines: Vec<Vec<char>> = Vec::new();
    let mut start: usize = 0;
    let mut i: usize = 0;
    proof {
        assert(lines.deep_view() =~= Seq::<Seq<char>>::empty());
        assert(content@.skip(0) =~= content@);
        assert(lines.deep_view() + split_lines(content@) =~= split_lines(content@));
    }
    while i < n
        invariant
            n == cv@.len(),
            cv@ == content@,
            start <= i <= n,
            forall|j: int| start <= j < i ==> cv@[j] != '\n',
            split_lines(content@) == lines.deep_view() + split_lines(content@.skip(start as int)),
        decreases n - i,
    {
        if cv[i] == '\n' {
            let piece = char_range(&cv, start, i);
            let line = strip_cr_of(piece);
            let ghost pre_dv = lines.deep_view();
            let ghost rem = content@.skip(start as int);
            lines.push(line);
            proof {
                assert(lines.deep_view() =~~= pre_dv.push(line@));
                assert(rem.len() > 0);
                assert forall|j: int| 0 <= j < i - start implies rem[j] != '\n' by {
                    assert(rem[j] == cv@[start + j]);
                }
                assert(rem[i - start] == cv@[i as int]);
                lemma_first_at_found(rem, '\n', i - start);
                assert(rem.take(i - start) =~= cv@.subrange(start as int, i as int));
                assert(rem.skip(i - start + 1) =~= content@.skip(i as int + 1));
                assert(split_lines(rem) == seq![strip_cr(rem.take(i - start))] + split_lines(
                    content@.skip(i as int + 1),
                ));
                assert(pre_dv + split_lines(rem) =~= lines.deep_view() + split_lines(
                    content@.skip(i as int + 1),
                ));
            }
            start = i + 1;
            i = i + 1;
        } else {
            i = i + 1;
        }
    }
    if start < n {
        let piece = char_range(&cv, start, n);
        let line = strip_cr_of(piece);
        let ghost pre_dv = lines.deep_view();
        let ghost rem = content@.skip(start as int);
        lines.push(line);
        proof {
            assert(lines.deep_view() =~~= pre_dv.push(line@));
            assert forall|j: int| 0 <= j < rem.len() implies rem[j] != '\n' by {
                assert(rem[j] == cv@[start + j]);
            }
            lemma_first_at_none(rem, '\n');
            assert(rem.len() > 0);
            assert(rem =~= cv@.subrange(start as int, n as int));
            assert(split_lines(rem) == seq![strip_cr(rem)]);
            assert(pre_dv + split_lines(rem) =~= lines.deep_view());
        }
    } else {
        proof {
            assert(content@.skip(start as int).len() == 0);
            assert(lines.deep_view() + split_lines(content@.skip(start as int))
                =~= lines.deep_view());
        }
    }
    lines
}

/// The keys required of a complete profile that the scan did not collect,
/// in the order they are reported.
pub open spec fn missing_list(st: ScanStateV) -> Seq<Seq<char>> {
    (if st.region is None {
        seq!["sso_region"@]
    } else {
        Seq::<Seq<char>>::empty()
    }) + (if st.start_url is None {
        seq!["sso_start_url"@]
    } else {
        Seq::<Seq<char>>::empty()
    }) + (if st.account_id is None {
        seq!["sso_account_id"@]
    } else {
        Seq::<Seq<char>>::empty()
    }) + (if st.role_name is None {
        seq!["sso_role_name"@]
    } else {
        Seq::<Seq<char>>::empty()
    })
}

/// The items joined with `, `.
pub open spec fn join_comma(items: Seq<Seq<char>>) -> Seq<char>
    decreases items.len(),
{
    if items.len() == 0 {
        Seq::empty()
    } else if items.len() == 1 {
        items[0]
    } else {
        items[0] + ", "@ + join_comma(items.drop_first())
    }
}

proof fn lemma_join_push(items: Seq<Seq<char>>, x: Seq<char>)
    ensures
        join_comma(items.push(x)) == if items.len() == 0 {
            x
        } else {
            join_comma(items) + ", "@ + x
        },
    decreases items.len(),
{
    if items.len() == 0 {
        assert(items.push(x)[0] == x);
    } else {
        assert(items.push(x)[0] == items[0]);
        assert(items.push(x).drop_first() =~= items.drop_first().push(x));
        lemma_join_push(items.drop_first(), x);
        if items.len() == 1 {
            assert(items.drop_first().len() == 0);
        }
    }
}

/// What loading the given profile from the given file content yields: the
/// four collected keys as a configuration, or an error that says the
/// profile is not defined, or one that names exactly the missing keys.
pub open spec fn parse_profile_result(content: Seq<char>, profile: Seq<char>, path: Seq<char>) -> Result<
    SsoConfigV,
    Seq<char>,
> {
    let st = scan_lines(scan_init(), split_lines(content), profile);
    if !st.in_profile {
        Err("profile "@ + profile + " is not defined in config file "@ + path)
    } else if st.region is Some && st.start_url is Some && st.account_id is Some && st.role_name
        is Some {
        Ok(
            SsoConfigV {
                region: st.region->Some_0,
                start_url: st.start_url->Some_0,
                account_id: st.account_id->Some_0,
                role_name: st.role_name->Some_0,
            },
        )
    } else {
        Err(
            "incomplete SSO configuration in profile "@ + profile + "; missing: "@ + join_comma(
                missing_list(st),
            ),
        )
    }
}

/// Loads the given profile from the given file content: scans for the
/// section, collects the four required keys, and fails hard on a missing
/// section or any missing key.
pub fn parse_profile(content: &str, profile: &str, path: &str) -> (r: Result<
    SsoConfig,
    SsoProfileError,
>)
    ensures
        match r {
            Ok(c) => parse_profile_result(content@, profile@, path@) == Ok::<SsoConfigV, Seq<char>>(
                c@,
            ),
            Err(e) => parse_profile_result(content@, profile@, path@) == Err::<
                SsoConfigV,
                Seq<char>,
            >(e@),
        },
{
    let lines = split_to_lines(content);
    let pchars = to_char_vec(profile);
    let ghost all = lines.deep_view();
    let mut st = ScanState {
        in_profile: false,
        done: false,
        region: None,
        start_url: None,
        account_id: None,
        role_name: None,
    };
    proof {
        assert(st@ == scan_init());
        assert(all.skip(0) =~= all);
    }
    let m: usize = lines.len();
    let mut i: usize = 0;
    while i < m
        invariant
            m == lines@.len(),
            i <= m,
            all == lines.deep_view(),
            all == split_lines(content@),
            pchars@ == profile@,
            scan_lines(scan_init(), all, profile@) == scan_lines(
                st@,
                all.skip(i as int),
                profile@,
            ),
        decreases m - i,
    {
        let ghost pre = st@;
        let stepped = scan_step(st, &lines[i], &pchars);
        st = stepped;
        proof {
            assert(all[i as int] =~= lines@[i as int]@);
            assert(all.skip(i as int).len() > 0);
            assert(all.skip(i as int)[0] == all[i as int]);
            assert(all.skip(i as int).drop_first() =~= all.skip(i as int + 1));
        }
        i = i + 1;
    }
    proof {
        assert(all.skip(m as int).len() == 0);
    }
    let ghost fst = st@;
    if !st.in_profile {
        let mut out: Vec<char> = Vec::new();
        push_chars(&mut out, "profile ");
        push_chars(&mut out, profile);
        push_chars(&mut out, " is not defined in config file ");
        push_chars(&mut out, path);
        proof {
            assert(out@ =~= "profile "@ + profile@ + " is not defined in config file "@ + path@);
        }
        return Err(SsoProfileError { message: chars_to_string(&out) });
    }
    match (st.region, st.start_url, st.account_id, st.role_name) {
        (Some(region), Some(start_url), Some(account_id), Some(role_name)) => {
            let c = SsoConfig {
                region: Region::new(chars_to_string(&region)),
                start_url: chars_to_string(&start_url),
                account_id: chars_to_string(&account_id),
                role_name: chars_to_string(&role_name),
            };
            Ok(c)
        },
        (region, start_url, account_id, role_name) => {
            let mut listed: Vec<char> = Vec::new();
            let ghost mut items = Seq::<Seq<char>>::empty();
            let mut first: bool = true;
            if region.is_none() {
                push_chars(&mut listed, "sso_region");
                proof {
                    lemma_join_push(items, "sso_region"@);
                    items = items.push("sso_region"@);
                    assert(listed@ =~= join_comma(items));
                }
                first = false;
            }
            if start_url.is_none() {
                if !first {
                    push_chars(&mut listed, ", ");
                }
                push_chars(&mut listed, "sso_start_url");
                proof {
                    lemma_join_push(items, "sso_start_url"@);
                    items = items.push("sso_start_url"@);
                    assert(listed@ =~= join_comma(items));
                }
                first = false;
            }
            if account_id.is_none() {
                if !first {
                    push_chars(&mut listed, ", ");
                }
                push_chars(&mut listed, "sso_account_id");
                proof {
                    lemma_join_push(items, "sso_account_id"@);
                    items = items.push("sso_account_id"@);
                    assert(listed@ =~= join_comma(items));
                }
                first = false;
            }
            if role_name.is_none() {
                if !first {
                    push_chars(&mut listed, ", ");
                }
                push_chars(&mut listed, "sso_role_name");
                proof {
                    lemma_join_push(items, "sso_role_name"@);
                    items = items.push("sso_role_name"@);
                    assert(listed@ =~= join_comma(items));
                }
                first = false;
            }
            proof {
                assert(items =~= missing_list(fst));
            }
            let mut out: Vec<char> = Vec::new();
            push_chars(&mut out, "incomplete SSO configuration in profile ");
            push_chars(&mut out, profile);
            push_chars(&mut out, "; missing: ");
            let ghost head = "incomplete SSO configuration in profile "@ + profile@
                + "; missing: "@;
            proof {
                assert(out@ =~= head + listed@.take(0));
            }
            let mut j: usize = 0;
            let jl: usize = listed.len();
            while j < jl
                invariant
                    jl == listed@.len(),
                    j <= jl,
                    out@ == head + listed@.take(j as int),
                decreases jl - j,
            {
                out.push(listed[j]);
                j = j + 1;
                proof {
                    assert(head + listed@.take(j as int) =~= (head + listed@.take(j - 1)).push(
                        listed@[j - 1],
                    ));
                }
            }
            proof {
                assert(listed@.take(jl as int) =~= listed@);
                assert(out@ =~= "incomplete SSO configuration in profile "@ + profile@
                    + "; missing: "@ + join_comma(missing_list(fst)));
            }
            Err(SsoProfileError { message: chars_to_string(&out) })
        },
    }
}

/// The profile named by a section-header line, after trimming: the text
/// between `[profile ` and `]`, or between `[` and `]`.
pub fn parse_profile_name(line: &str) -> (r: Option<String>)
    ensures
        match r {
            Some(n) => section_name(trim_spaces(line@)) == Some(n@),
            None => section_name(trim_spaces(line@)) is None,
        },
{
    let v = to_char_vec(line);
    let t = trim_of(&v);
    match section_name_of(&t) {
        Some(n) => Some(chars_to_string(&n)),
        None => None,
    }
}

} // verus!
