//! The four configuration values the tool runs with, and the parser for
//! the configuration file they are loaded from.
//!
//! The file is a TOML document restricted to what the tool needs: each
//! line is blank, a `#` comment, or `KEY = "value"` with optional blanks
//! around the key and the value; the value holds no quote and no escape.
//! The keys read are TOKEN, USER, REPO and PATH; other keys are ignored;
//! when a key repeats, the last occurrence wins.

use vstd::prelude::*;

verus! {

/// Configuration loaded once at startup and read-only afterwards: the
/// GitHub token, the account name, the repository name, and the path
/// prefix inside the repository that uploads go under.
pub struct Settings {
    pub token: String,
    pub user: String,
    pub repo: String,
    pub path: String,
}

impl Settings {
    /// Packs the four values in the order the configuration file names
    /// them: TOKEN, USER, REPO, PATH.
    pub fn new(token: String, user: String, repo: String, path: String) -> (r: Self)
        ensures
            r.token == token,
            r.user == user,
            r.repo == repo,
            r.path == path,
    {
        Settings { token, user, repo, path }
    }
}

/// The blank characters allowed around keys and values.
pub open spec fn is_space(c: char) -> bool {
    c == ' ' || c == '\t' || c == '\r'
}

/// The index of the first occurrence of `c` in `s`, or `s.len()` when
/// there is none.
pub open spec fn spec_find(s: Seq<char>, c: char) -> int
    decreases s.len(),
{
    if s.len() == 0 {
        0
    } else if s[0] == c {
        0
    } else {
        1 + spec_find(s.subrange(1, s.len() as int), c)
    }
}

/// The index of the first non-blank character, or `s.len()` when the
/// whole sequence is blank.
pub open spec fn spec_skip_spaces(s: Seq<char>) -> int
    decreases s.len(),
{
    if s.len() == 0 {
        0
    } else if !is_space(s[0]) {
        0
    } else {
        1 + spec_skip_spaces(s.subrange(1, s.len() as int))
    }
}

/// The index of the last non-blank character, or -1 when the whole
/// sequence is blank.
pub open spec fn spec_last_non_space(s: Seq<char>) -> int
    decreases s.len(),
{
    if s.len() == 0 {
        -1
    } else if !is_space(s.last()) {
        s.len() - 1
    } else {
        spec_last_non_space(s.drop_last())
    }
}

/// `s` with its leading and trailing blanks removed.
pub open spec fn spec_trim(s: Seq<char>) -> Seq<char> {
    let f = spec_skip_spaces(s);
    let l = spec_last_non_space(s);
    if l < f {
        Seq::<char>::empty()
    } else {
        s.subrange(f, l + 1)
    }
}

/// The lines of a text, split on `\n`; a text without a newline is one
/// line.
pub open spec fn spec_split_lines(s: Seq<char>) -> Seq<Seq<char>>
    decreases s.len(),
{
    let i = spec_find(s, '\n');
    if !(0 <= i < s.len()) {
        seq![s]
    } else {
        seq![s.subrange(0, i)] + spec_split_lines(s.subrange(i + 1, s.len() as int))
    }
}

/// A line that carries nothing: blank, or a `#` comment.
pub open spec fn spec_line_blank(line: Seq<char>) -> bool {
    let t = spec_trim(line);
    t.len() == 0 || t[0] == '#'
}

/// The key and value of a `KEY = "value"` line, or `None` when the line
/// is blank, a comment, or malformed.
pub open spec fn spec_line_pair(line: Seq<char>) -> Option<(Seq<char>, Seq<char>)> {
    let t = spec_trim(line);
    let e = spec_find(t, '=');
    if spec_line_blank(line) || e >= t.len() {
        None
    } else {
        let k = spec_trim(t.subrange(0, e));
        let v = spec_trim(t.subrange(e + 1, t.len() as int));
        if k.len() > 0 && v.len() >= 2 && v[0] == '"' && v[v.len() - 1] == '"' && (forall|m: int|
            0 < m < v.len() - 1 ==> v[m] != '"') {
            Some((k, v.subrange(1, v.len() - 1)))
        } else {
            None
        }
    }
}

/// A line the parser accepts: blank, a comment, or a key-value pair.
pub open spec fn spec_line_ok(line: Seq<char>) -> bool {
    spec_line_blank(line) || spec_line_pair(line) is Some
}

/// The value of the last line that assigns `key`, over a sequence of
/// lines.
pub open spec fn spec_lookup(lines: Seq<Seq<char>>, key: Seq<char>) -> Option<Seq<char>>
    decreases lines.len(),
{
    if lines.len() == 0 {
        None
    } else {
        match spec_line_pair(lines.last()) {
            Some(kv) => if kv.0 == key {
                Some(kv.1)
            } else {
                spec_lookup(lines.drop_last(), key)
            },
            None => spec_lookup(lines.drop_last(), key),
        }
    }
}

/// The index of the first line the parser rejects, or `lines.len()` when
/// every line is acceptable.
pub open spec fn spec_first_bad(lines: Seq<Seq<char>>) -> int
    decreases lines.len(),
{
    if lines.len() == 0 {
        0
    } else if !spec_line_ok(lines[0]) {
        0
    } else {
        1 + spec_first_bad(lines.subrange(1, lines.len() as int))
    }
}

/// An accumulated optional value agrees with what a lookup over the lines
/// seen so far yields.
pub open spec fn opt_matches(o: Option<String>, s: Option<Seq<char>>) -> bool {
    match o {
        None => s is None,
        Some(x) => s == Some(x@),
    }
}

proof fn lemma_first_bad_is(lines: Seq<Seq<char>>, i: int)
    requires
        0 <= i <= lines.len(),
        forall|k: int| 0 <= k < i ==> spec_line_ok(#[trigger] lines[k]),
        i < lines.len() ==> !spec_line_ok(lines[i]),
    ensures
        spec_first_bad(lines) == i,
    decreases lines.len(),
{
    if lines.len() == 0 {
    } else if !spec_line_ok(lines[0]) {
        assert(i == 0) by {
            if i > 0 {
                assert(spec_line_ok(lines[0]));
            }
        }
    } else {
        let t = lines.subrange(1, lines.len() as int);
        assert(forall|k: int| 0 <= k < i - 1 ==> spec_line_ok(#[trigger] t[k]));
        assert(i - 1 < t.len() ==> !spec_line_ok(t[i - 1]));
        lemma_first_bad_is(t, i - 1);
    }
}

proof fn lemma_lookup_step(lines: Seq<Seq<char>>, i: int, key: Seq<char>)
    requires
        0 <= i < lines.len(),
    ensures
        spec_lookup(lines.subrange(0, i + 1), key) == (match spec_line_pair(lines[i]) {
            Some(kv) => if kv.0 == key {
                Some(kv.1)
            } else {
                spec_lookup(lines.subrange(0, i), key)
            },
            None => spec_lookup(lines.subrange(0, i), key),
        }),
{
    assert(lines.subrange(0, i + 1).drop_last() =~= lines.subrange(0, i));
    assert(lines.subrange(0, i + 1).last() == lines[i]);
}

proof fn lemma_find_is(s: Seq<char>, c: char, i: int)
    requires
        0 <= i <= s.len(),
        forall|k: int| 0 <= k < i ==> s[k] != c,
        i < s.len() ==> s[i] == c,
    ensures
        spec_find(s, c) == i,
    decreases s.len(),
{
    if s.len() == 0 {
    } else if s[0] == c {
        assert(i == 0) by {
            if i > 0 {
                assert(s[0] != c);
            }
        }
    } else {
        let t = s.subrange(1, s.len() as int);
        assert(forall|k: int| 0 <= k < i - 1 ==> t[k] != c);
        assert(i - 1 < t.len() ==> t[i - 1] == c);
        lemma_find_is(t, c, i - 1);
    }
}

proof fn lemma_skip_spaces_is(s: Seq<char>, i: int)
    requires
        0 <= i <= s.len(),
        forall|k: int| 0 <= k < i ==> is_space(s[k]),
        i < s.len() ==> !is_space(s[i]),
    ensures
        spec_skip_spaces(s) == i,
    decreases s.len(),
{
    if s.len() == 0 {
    } else if !is_space(s[0]) {
        assert(i == 0) by {
            if i > 0 {
                assert(is_space(s[0]));
            }
        }
    } else {
        let t = s.subrange(1, s.len() as int);
        assert(forall|k: int| 0 <= k < i - 1 ==> is_space(t[k]));
        assert(i - 1 < t.len() ==> !is_space(t[i - 1]));
        lemma_skip_spaces_is(t, i - 1);
    }
}

proof fn lemma_last_non_space_is(s: Seq<char>, l: int)
    requires
        -1 <= l < s.len(),
        forall|k: int| l < k < s.len() ==> is_space(s[k]),
        l >= 0 ==> !is_space(s[l]),
    ensures
        spec_last_non_space(s) == l,
    decreases s.len(),
{
    if s.len() == 0 {
    } else if !is_space(s.last()) {
        assert(l == s.len() - 1) by {
            if l < s.len() - 1 {
                assert(is_space(s[s.len() - 1]));
            }
        }
    } else {
        assert(l < s.len() - 1) by {
            if l == s.len() - 1 {
                assert(!is_space(s[l]));
            }
        }
        assert(forall|k: int| l < k < s.drop_last().len() ==> s.drop_last()[k] == s[k]);
        lemma_last_non_space_is(s.drop_last(), l);
    }
}

fn space_char(c: char) -> (r: bool)
    ensures
        r == is_space(c),
{
    c == ' ' || c == '\t' || c == '\r'
}

/// Removes leading and trailing blanks.
fn trim_of(s: &str) -> (r: String)
    ensures
        r@ == spec_trim(s@),
{
    let n = s.unicode_len();
    let mut f: usize = 0;
    loop
        invariant
            f <= n == s@.len(),
            forall|k: int| 0 <= k < f ==> is_space(s@[k]),
        ensures
            f <= n,
            forall|k: int| 0 <= k < f ==> is_space(s@[k]),
            f < n ==> !is_space(s@[f as int]),
        decreases n - f,
    {
        if f == n {
            break;
        }
        if !space_char(s.get_char(f)) {
            break;
        }
        f = f + 1;
    }
    let mut l: usize = n;
    loop
        invariant
            l <= n == s@.len(),
            forall|k: int| l <= k < n ==> is_space(s@[k]),
        ensures
            l <= n,
            forall|k: int| l <= k < n ==> is_space(s@[k]),
            l > 0 ==> !is_space(s@[l - 1]),
        decreases l,
    {
        if l == 0 {
            break;
        }
        if !space_char(s.get_char(l - 1)) {
            break;
        }
        l = l - 1;
    }
    proof {
        lemma_skip_spaces_is(s@, f as int);
        lemma_last_non_space_is(s@, l as int - 1);
    }
    if l <= f {
        String::new()
    } else {
        s.substring_char(f, l).to_owned()
    }
}

/// Splits a text into its lines.
fn split_lines(s: &str) -> (r: Vec<String>)
    ensures
        r@.len() == spec_split_lines(s@).len(),
        forall|k: int| 0 <= k < r@.len() ==> r@[k]@ == spec_split_lines(s@)[k],
    decreases s@.len(),
{
    let n = s.unicode_len();
    let mut i: usize = 0;
    loop
        invariant
            i <= n == s@.len(),
            forall|k: int| 0 <= k < i ==> s@[k] != '\n',
        ensures
            i <= n,
            forall|k: int| 0 <= k < i ==> s@[k] != '\n',
            i < n ==> s@[i as int] == '\n',
        decreases n - i,
    {
        if i == n {
            break;
        }
        if s.get_char(i) == '\n' {
            break;
        }
        i = i + 1;
    }
    proof {
        lemma_find_is(s@, '\n', i as int);
    }
    if i == n {
        let mut r: Vec<String> = Vec::new();
        r.push(s.to_owned());
        r
    } else {
        let head = s.substring_char(0, i).to_owned();
        let tail = s.substring_char(i + 1, n);
        let mut r = split_lines(tail);
        r.insert(0, head);
        r
    }
}

/// What one configuration line is to the parser.
pub enum LineKind {
    /// Blank or a comment.
    Skip,
    /// An assignment `KEY = "value"`.
    Pair(String, String),
    /// Anything else: the file is rejected.
    Bad,
}

/// Classifies one configuration line.
pub fn classify_line(line: &str) -> (r: LineKind)
    ensures
        r is Skip <==> spec_line_blank(line@),
        r matches LineKind::Pair(k, v) ==> spec_line_pair(line@) == Some((k@, v@)),
        r is Bad <==> !spec_line_ok(line@),
{
    let t = trim_of(line);
    let tn = t.as_str().unicode_len();
    if tn == 0 {
        return LineKind::Skip;
    }
    if t.as_str().get_char(0) == '#' {
        return LineKind::Skip;
    }
    let mut e: usize = 0;
    loop
        invariant
            e <= tn == t@.len(),
            forall|k: int| 0 <= k < e ==> t@[k] != '=',
        ensures
            e <= tn,
            forall|k: int| 0 <= k < e ==> t@[k] != '=',
            e < tn ==> t@[e as int] == '=',
        decreases tn - e,
    {
        if e == tn {
            break;
        }
        if t.as_str().get_char(e) == '=' {
            break;
        }
        e = e + 1;
    }
    proof {
        lemma_find_is(t@, '=', e as int);
    }
    if e == tn {
        return LineKind::Bad;
    }
    let k = trim_of(t.as_str().substring_char(0, e));
    let v = trim_of(t.as_str().substring_char(e + 1, tn));
    let vn = v.as_str().unicode_len();
    if k.as_str().unicode_len() == 0 {
        return LineKind::Bad;
    }
    if vn < 2 {
        return LineKind::Bad;
    }
    if v.as_str().get_char(0) != '"' {
        return LineKind::Bad;
    }
    if v.as_str().get_char(vn - 1) != '"' {
        return LineKind::Bad;
    }
    let mut m: usize = 1;
    loop
        invariant
            1 <= m <= vn == v@.len(),
            forall|k2: int| 1 <= k2 < m ==> v@[k2] != '"',
        ensures
            1 <= m <= vn,
            forall|k2: int| 1 <= k2 < m ==> v@[k2] != '"',
            m < vn - 1 ==> v@[m as int] == '"',
        decreases vn - m,
    {
        if m >= vn - 1 {
            break;
        }
        if v.as_str().get_char(m) == '"' {
            break;
        }
        m = m + 1;
    }
    if m < vn - 1 {
        return LineKind::Bad;
    }
    let value = v.as_str().substring_char(1, vn - 1).to_owned();
    LineKind::Pair(k, value)
}

/// Why loading the configuration failed: the fatal startup errors.
#[derive(Debug)]
pub enum ConfigError {
    /// A line that is neither blank, a comment, nor `KEY = "value"`.
    BadLine(String),
    /// The TOKEN key is absent.
    MissingToken,
    /// The USER key is absent.
    MissingUser,
    /// The REPO key is absent.
    MissingRepo,
    /// The PATH key is absent.
    MissingPath,
}

impl ConfigError {
    /// The plain text shown for this startup failure.
    pub fn message(&self) -> (r: String)
        ensures
            self matches ConfigError::BadLine(l) ==> r@ == "bad config line: "@ + l@,
            *self == ConfigError::MissingToken ==> r@ == "config key TOKEN is missing"@,
            *self == ConfigError::MissingUser ==> r@ == "config key USER is missing"@,
            *self == ConfigError::MissingRepo ==> r@ == "config key REPO is missing"@,
            *self == ConfigError::MissingPath ==> r@ == "config key PATH is missing"@,
    {
        match self {
            ConfigError::BadLine(l) => String::from_str("bad config line: ").concat(l.as_str()),
            ConfigError::MissingToken => String::from_str("config key TOKEN is missing"),
            ConfigError::MissingUser => String::from_str("config key USER is missing"),
            ConfigError::MissingRepo => String::from_str("config key REPO is missing"),
            ConfigError::MissingPath => String::from_str("config key PATH is missing"),
        }
    }
}

/// Parses the configuration file. Every line must be blank, a comment or
/// an assignment; the four keys TOKEN, USER, REPO and PATH must all be
/// assigned, and the last assignment of a key wins. A malformed line is
/// reported before a missing key, and the missing keys are reported in
/// the order above.
pub fn parse_settings(text: &str) -> (r: Result<Settings, ConfigError>)
    ensures
        ({
            let sl = spec_split_lines(text@);
            match r {
                Ok(s) => {
                    &&& spec_first_bad(sl) == sl.len()
                    &&& spec_lookup(sl, "TOKEN"@) == Some(s.token@)
                    &&& spec_lookup(sl, "USER"@) == Some(s.user@)
                    &&& spec_lookup(sl, "REPO"@) == Some(s.repo@)
                    &&& spec_lookup(sl, "PATH"@) == Some(s.path@)
                },
                Err(e) => match e {
                    ConfigError::BadLine(l) => spec_first_bad(sl) < sl.len() && l@ == sl[
                        spec_first_bad(sl)
                    ],
                    ConfigError::MissingToken => spec_first_bad(sl) == sl.len() && spec_lookup(
                        sl,
                        "TOKEN"@,
                    ) is None,
                    ConfigError::MissingUser => spec_first_bad(sl) == sl.len() && spec_lookup(
                        sl,
                        "TOKEN"@,
                    ) is Some && spec_lookup(sl, "USER"@) is None,
                    ConfigError::MissingRepo => spec_first_bad(sl) == sl.len() && spec_lookup(
                        sl,
                        "TOKEN"@,
                    ) is Some && spec_lookup(sl, "USER"@) is Some && spec_lookup(
                        sl,
                        "REPO"@,
                    ) is None,
                    ConfigError::MissingPath => spec_first_bad(sl) == sl.len() && spec_lookup(
                        sl,
                        "TOKEN"@,
                    ) is Some && spec_lookup(sl, "USER"@) is Some && spec_lookup(
                        sl,
                        "REPO"@,
                    ) is Some && spec_lookup(sl, "PATH"@) is None,
                },
            }
        }),
{
    let ghost sl = spec_split_lines(text@);
    let lines = split_lines(text);
    let key_token = String::from_str("TOKEN");
    let key_user = String::from_str("USER");
    let key_repo = String::from_str("REPO");
    let key_path = String::from_str("PATH");
    let mut token: Option<String> = None;
    let mut user: Option<String> = None;
    let mut repo: Option<String> = None;
    let mut path: Option<String> = None;
    let mut idx: usize = 0;
    while idx < lines.len()
        invariant
            sl == spec_split_lines(text@),
            idx <= lines@.len() == sl.len(),
            forall|k: int| 0 <= k < sl.len() ==> lines@[k]@ == sl[k],
            forall|k: int| 0 <= k < idx ==> spec_line_ok(#[trigger] sl[k]),
            key_token@ == "TOKEN"@,
            key_user@ == "USER"@,
            key_repo@ == "REPO"@,
            key_path@ == "PATH"@,
            opt_matches(token, spec_lookup(sl.subrange(0, idx as int), "TOKEN"@)),
            opt_matches(user, spec_lookup(sl.subrange(0, idx as int), "USER"@)),
            opt_matches(repo, spec_lookup(sl.subrange(0, idx as int), "REPO"@)),
            opt_matches(path, spec_lookup(sl.subrange(0, idx as int), "PATH"@)),
        decreases lines@.len() - idx,
    {
        let ghost prefix = sl.subrange(0, idx as int);
        let ghost prefix1 = sl.subrange(0, idx as int + 1);
        proof {
            reveal_strlit("TOKEN");
            reveal_strlit("USER");
            reveal_strlit("REPO");
            reveal_strlit("PATH");
            assert(prefix1.drop_last() =~= prefix);
            assert(prefix1.last() == sl[idx as int]);
            assert("TOKEN"@[0] == 'T' && "USER"@[0] == 'U' && "REPO"@[0] == 'R' && "PATH"@[0]
                == 'P');
            assert("TOKEN"@ != "USER"@ && "TOKEN"@ != "REPO"@ && "TOKEN"@ != "PATH"@ && "USER"@
                != "REPO"@ && "USER"@ != "PATH"@ && "REPO"@ != "PATH"@);
            lemma_lookup_step(sl, idx as int, "TOKEN"@);
            lemma_lookup_step(sl, idx as int, "USER"@);
            lemma_lookup_step(sl, idx as int, "REPO"@);
            lemma_lookup_step(sl, idx as int, "PATH"@);
        }
        match classify_line(lines[idx].as_str()) {
            LineKind::Skip => {
                proof {
                    assert(spec_line_pair(sl[idx as int]) is None);
                }
            },
            LineKind::Pair(k, v) => {
                if k == key_token {
                    token = Some(v);
                } else if k == key_user {
                    user = Some(v);
                } else if k == key_repo {
                    repo = Some(v);
                } else if k == key_path {
                    path = Some(v);
                }
            },
            LineKind::Bad => {
                let bad = lines[idx].clone();
                proof {
                    lemma_first_bad_is(sl, idx as int);
                    assert(bad@ == sl[spec_first_bad(sl)]);
                }
                return Err(ConfigError::BadLine(bad));
            },
        }
        idx = idx + 1;
    }
    proof {
        assert(sl.subrange(0, sl.len() as int) =~= sl);
        lemma_first_bad_is(sl, sl.len() as int);
    }
    let token = match token {
        Some(t) => t,
        None => {
            return Err(ConfigError::MissingToken);
        },
    };
    let user = match user {
        Some(u) => u,
        None => {
            return Err(ConfigError::MissingUser);
        },
    };
    let repo = match repo {
        Some(rp) => rp,
        None => {
            return Err(ConfigError::MissingRepo);
        },
    };
    let path = match path {
        Some(p) => p,
        None => {
            return Err(ConfigError::MissingPath);
        },
    };
    Ok(Settings { token, user, repo, path })
}

} // verus!
