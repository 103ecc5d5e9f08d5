//! What the client scanners compute: Windows paths inside a Wine prefix, the
//! bottles that `whisky list` prints, the Wine settings that
//! `whisky shellenv` prints, and the clients they describe.
use vstd::prelude::*;

use crate::text::{
    chars_of, find_chars, lines_chars, lines_of, occurs_at, push_chars, push_str, split_chars,
    split_on, starts_with, starts_with_str, string_from_chars, string_of, trim, trim_chars,
    trim_str, contains,
};

use crate::env::EnvVars;
use crate::settings::{ClientConfigType, LaunchCommand, WineClientConfig};

verus! {

/// Why a scan could not describe a client.
#[derive(Debug)]
pub enum ScanError {
    /// The path does not lie inside a Wine prefix's `drive_c`.
    NoDriveC(String),
}

impl ScanError {
    /// The error's message: for a path outside a prefix's `drive_c`,
    /// `Path does not contain /drive_c/: ` followed by the path.
    pub fn message(&self) -> (r: String)
        ensures
            match *self {
                ScanError::NoDriveC(p) => r@ == "Path does not contain /drive_c/: "@ + p@,
            },
    {
        match self {
            ScanError::NoDriveC(p) => {
                let mut r = string_of("Path does not contain /drive_c/: ");
                push_str(&mut r, p.as_str());
                r
            },
        }
    }
}

/// A client installation that a scan found.
pub struct ScannedClient {
    pub display_name: String,
    /// The Windows path of the installation directory.
    pub install_path: String,
    pub wine_executable: String,
    pub prefix_path: String,
}

impl ScannedClient {
    /// The Wine client configuration of a found installation: named by the
    /// scan, run by the found Wine executable with `WINEPREFIX` set to the
    /// prefix, with no arguments and no DLLs.
    pub fn into_client_config(self) -> (c: ClientConfigType)
        ensures
            c matches ClientConfigType::Wine(w) && w.name == self.display_name && w.client_path
                == self.install_path && w.launch_command.program == self.wine_executable
                && w.launch_command.args@.len() == 0 && w.launch_command.env.map() == map![
                "WINEPREFIX"@ => self.prefix_path@] && w.dlls@.len() == 0 && w.selected_dll is None,
    {
        let mut env = EnvVars::new();
        let ghost p = self.prefix_path@;
        env.insert(string_of("WINEPREFIX"), self.prefix_path);
        assert(env.map() =~= map!["WINEPREFIX"@ => p]);
        ClientConfigType::Wine(
            WineClientConfig {
                name: self.display_name,
                client_path: self.install_path,
                launch_command: LaunchCommand {
                    program: self.wine_executable,
                    args: Vec::new(),
                    env,
                },
                dlls: Vec::new(),
                selected_dll: None,
            },
        )
    }
}

/// `s` with every `/` turned into `\`.
pub open spec fn backslashed(s: Seq<char>) -> Seq<char> {
    s.map_values(|c: char| if c == '/' { '\\' } else { c })
}

/// `i` is the first position at which `p` occurs in `s`.
pub open spec fn first_occurrence(s: Seq<char>, p: Seq<char>, i: int) -> bool {
    occurs_at(s, p, i) && forall|j: int| 0 <= j < i ==> !occurs_at(s, p, j)
}

/// The Windows path (`C:\...`) of a Unix path inside a Wine prefix: what
/// follows the first `/drive_c/`, with `/` turned into `\`.
pub fn windows_path_from_unix(unix_path: &str) -> (r: Result<String, ScanError>)
    ensures
        r is Ok <==> contains(unix_path@, "/drive_c/"@),
        r matches Err(ScanError::NoDriveC(p)) ==> p@ == unix_path@,
        r matches Ok(w) ==> exists|i: int|
            first_occurrence(unix_path@, "/drive_c/"@, i) && w@ == "C:\\"@ + backslashed(
                unix_path@.subrange(i + "/drive_c/"@.len(), unix_path@.len() as int),
            ),
{
    let s = chars_of(unix_path);
    let pat = chars_of("/drive_c/");
    match find_chars(&s, &pat) {
        Some(i) => {
            let n = s.len();
            assert(occurs_at(s@, pat@, i as int));
            let start = i + pat.len();
            let mut w = string_of("C:\\");
            let ghost w0 = w@;
            let mut k: usize = start;
            while k < s.len()
                invariant
                    s@ == unix_path@,
                    start <= k <= s@.len(),
                    w@ == w0 + backslashed(s@.subrange(start as int, k as int)),
                decreases s@.len() - k,
            {
                let c = if s[k] == '/' {
                    '\\'
                } else {
                    s[k]
                };
                crate::text::string_push(&mut w, c);
                proof {
                    assert(backslashed(s@.subrange(start as int, k + 1)) =~= backslashed(
                        s@.subrange(start as int, k as int),
                    ).push(c));
                }
                k = k + 1;
            }
            proof {
                assert(first_occurrence(unix_path@, "/drive_c/"@, i as int));
            }
            Ok(w)
        },
        None => Err(ScanError::NoDriveC(string_of(unix_path))),
    }
}

/// The directories, relative to a prefix's `drive_c`, in which clients are
/// looked for, in order.
pub fn ac_search_paths() -> (r: Vec<String>)
    ensures
        r@.len() == 3,
        r@[0]@ == "Turbine/Asheron's Call"@,
        r@[1]@ == "Program Files/Turbine/Asheron's Call"@,
        r@[2]@ == "Program Files (x86)/Turbine/Asheron's Call"@,
{
    let mut r: Vec<String> = Vec::new();
    r.push(string_of("Turbine/Asheron's Call"));
    r.push(string_of("Program Files/Turbine/Asheron's Call"));
    r.push(string_of("Program Files (x86)/Turbine/Asheron's Call"));
    r
}

/// The places where a Wine executable is looked for, in order, before the
/// search path is asked.
pub fn wine_candidates() -> (r: Vec<String>)
    ensures
        r@.len() == 4,
        r@[0]@ == "/usr/local/bin/wine64"@,
        r@[1]@ == "/opt/homebrew/bin/wine64"@,
        r@[2]@ == "/usr/bin/wine64"@,
        r@[3]@ == "/usr/bin/wine"@,
{
    let mut r: Vec<String> = Vec::new();
    r.push(string_of("/usr/local/bin/wine64"));
    r.push(string_of("/opt/homebrew/bin/wine64"));
    r.push(string_of("/usr/bin/wine64"));
    r.push(string_of("/usr/bin/wine"));
    r
}

/// `label` followed by `rest`.
fn labelled(label: &str, rest: &str) -> (r: String)
    ensures
        r@ == label@ + rest@,
{
    let mut r = string_of(label);
    push_str(&mut r, rest);
    r
}

/// The scanner of plain Wine prefixes.
pub struct WineScanner {
    pub wine_executable: String,
}

impl WineScanner {
    /// A scanner that runs clients with `wine_executable`.
    pub fn new(wine_executable: String) -> (r: WineScanner)
        ensures
            r.wine_executable == wine_executable,
    {
        WineScanner { wine_executable }
    }

    /// The scanner's name.
    pub fn name(&self) -> (r: &'static str)
        ensures
            r@ == "Wine"@,
    {
        "Wine"
    }

    /// The Windows path of a Unix path inside a prefix.
    pub fn unix_to_windows_path(&self, unix_path: &str) -> (r: Result<String, ScanError>)
        ensures
            r is Ok <==> contains(unix_path@, "/drive_c/"@),
            r matches Err(ScanError::NoDriveC(p)) ==> p@ == unix_path@,
            r matches Ok(w) ==> exists|i: int|
                first_occurrence(unix_path@, "/drive_c/"@, i) && w@ == "C:\\"@ + backslashed(
                    unix_path@.subrange(i + "/drive_c/"@.len(), unix_path@.len() as int),
                ),
    {
        windows_path_from_unix(unix_path)
    }

    /// The client installed at `ac_path` (a Unix path) in the prefix at
    /// `prefix_path`.
    pub fn client_at(&self, prefix_path: &str, ac_path: &str) -> (r: Result<ScannedClient, ScanError>)
        ensures
            r is Ok <==> contains(ac_path@, "/drive_c/"@),
            r matches Err(ScanError::NoDriveC(p)) ==> p@ == ac_path@,
            r matches Ok(c) ==> {
                &&& c.display_name@ == "Wine: "@ + prefix_path@
                &&& exists|i: int|
                    first_occurrence(ac_path@, "/drive_c/"@, i) && c.install_path@ == "C:\\"@
                        + backslashed(ac_path@.subrange(i + "/drive_c/"@.len(), ac_path@.len() as int))
                &&& c.wine_executable == self.wine_executable
                &&& c.prefix_path@ == prefix_path@
            },
    {
        let install_path = windows_path_from_unix(ac_path)?;
        Ok(
            ScannedClient {
                display_name: labelled("Wine: ", prefix_path),
                install_path,
                wine_executable: self.wine_executable.clone(),
                prefix_path: string_of(prefix_path),
            },
        )
    }
}

/// The scanner of Whisky bottles.
pub struct WhiskyScanner;

/// The bottle named on a line of `whisky list`'s table, if the line names one:
/// a row (`|` first) that is not the header row, read in its first column.
pub open spec fn bottle_on_line(line: Seq<char>) -> Option<Seq<char>> {
    if starts_with(line, "+"@) || (starts_with(line, "|"@) && contains(line, "Name"@)) {
        None
    } else if starts_with(line, "|"@) {
        let parts = split_on(line, '|');
        if parts.len() >= 2 && trim(parts[1]).len() > 0 {
            Some(trim(parts[1]))
        } else {
            None
        }
    } else {
        None
    }
}

/// The bottles named on `lines`, in order.
pub open spec fn bottles_on_lines(lines: Seq<Seq<char>>) -> Seq<Seq<char>>
    decreases lines.len(),
{
    if lines.len() == 0 {
        Seq::empty()
    } else {
        let rest = bottles_on_lines(lines.drop_last());
        match bottle_on_line(lines.last()) {
            Some(b) => rest.push(b),
            None => rest,
        }
    }
}

/// `line` is a row of the bottle table other than the header, and its first
/// column, trimmed, is not empty.
pub open spec fn is_bottle_row(line: Seq<char>) -> bool {
    &&& starts_with(line, "|"@)
    &&& !contains(line, "Name"@)
    &&& split_on(line, '|').len() >= 2
    &&& trim(split_on(line, '|')[1]).len() > 0
}

/// Every bottle read comes from a line that names it, and every line that
/// names a bottle gives it.
pub proof fn lemma_bottles_on_lines(lines: Seq<Seq<char>>)
    ensures
        forall|k: int|
            0 <= k < bottles_on_lines(lines).len() ==> exists|j: int|
                0 <= j < lines.len() && bottle_on_line(lines[j]) == Some(#[trigger] bottles_on_lines(lines)[k]),
        forall|j: int|
            0 <= j < lines.len() && (#[trigger] bottle_on_line(lines[j])) is Some ==> exists|k: int|
                0 <= k < bottles_on_lines(lines).len() && bottles_on_lines(lines)[k] == bottle_on_line(
                    lines[j],
                )->0,
    decreases lines.len(),
{
    if lines.len() > 0 {
        let front = lines.drop_last();
        lemma_bottles_on_lines(front);
        let b = bottles_on_lines(lines);
        let bf = bottles_on_lines(front);
        assert forall|k: int| 0 <= k < b.len() implies exists|j: int|
            0 <= j < lines.len() && bottle_on_line(lines[j]) == Some(#[trigger] b[k]) by {
            if k < bf.len() {
                let j = choose|j: int| 0 <= j < front.len() && bottle_on_line(front[j]) == Some(bf[k]);
                assert(lines[j] == front[j]);
                assert(b[k] == bf[k]);
            } else {
                assert(bottle_on_line(lines[lines.len() - 1]) == Some(b[k]));
            }
        }
        assert forall|j: int| 0 <= j < lines.len() && (#[trigger] bottle_on_line(lines[j])) is Some implies exists|k: int|
            0 <= k < b.len() && b[k] == bottle_on_line(lines[j])->0 by {
            if j < front.len() {
                assert(lines[j] == front[j]);
                assert(bottle_on_line(front[j]) is Some);
                let k = choose|k: int| 0 <= k < bf.len() && bf[k] == bottle_on_line(front[j])->0;
                assert(b[k] == bf[k]);
            } else {
                assert(b[b.len() - 1] == bottle_on_line(lines[j])->0);
            }
        }
    }
}

/// A bottle row gives its first column, trimmed; any other line gives none.
pub proof fn lemma_bottle_row(line: Seq<char>)
    ensures
        bottle_on_line(line) is Some <==> is_bottle_row(line),
        is_bottle_row(line) ==> bottle_on_line(line) == Some(trim(split_on(line, '|')[1])),
{
    reveal_strlit("|");
    reveal_strlit("+");
    if starts_with(line, "|"@) {
        assert(line[0] == line.subrange(0, 1)[0]);
        assert(!starts_with(line, "+"@)) by {
            if starts_with(line, "+"@) {
                assert(line.subrange(0, 1)[0] == "+"@[0]);
            }
        }
    }
}

/// The value of an `export NAME="value"` line, for the given `export NAME="`
/// start; empty when the line is not quoted that way.
pub open spec fn quoted_value(line: Seq<char>, start: Seq<char>) -> Seq<char> {
    if starts_with(line, start) && line.len() > start.len() && line.last() == '"' {
        line.subrange(start.len() as int, line.len() - 1)
    } else {
        Seq::empty()
    }
}

/// The Wine settings that `whisky shellenv` prints: the directories of each
/// `export PATH=` line, in order, and the value of the last
/// `export WINEPREFIX=` line.
pub struct ShellEnv {
    pub path_lists: Vec<Vec<String>>,
    pub prefix: Option<String>,
}

/// The path lists and prefix read from `lines`.
pub open spec fn shellenv_of(lines: Seq<Seq<char>>) -> (Seq<Seq<Seq<char>>>, Option<Seq<char>>)
    decreases lines.len(),
{
    if lines.len() == 0 {
        (Seq::empty(), None)
    } else {
        let (paths, prefix) = shellenv_of(lines.drop_last());
        let line = lines.last();
        if starts_with(line, "export PATH="@) {
            (paths.push(split_on(quoted_value(line, "export PATH=\""@), ':')), prefix)
        } else if starts_with(line, "export WINEPREFIX="@) {
            (paths, Some(quoted_value(line, "export WINEPREFIX=\""@)))
        } else {
            (paths, prefix)
        }
    }
}

/// The value of `line` after the quoted start `start`, or empty.
fn quoted_value_exec(line: &Vec<char>, start: &str) -> (r: Vec<char>)
    ensures
        r@ == quoted_value(line@, start@),
{
    let st = chars_of(start);
    if starts_with_str(line, start) && line.len() > st.len() && line[line.len() - 1] == '"' {
        let mut r: Vec<char> = Vec::new();
        let mut k: usize = st.len();
        while k < line.len() - 1
            invariant
                st@ == start@,
                st@.len() <= k <= line@.len() - 1,
                r@ == line@.subrange(st@.len() as int, k as int),
            decreases line@.len() - 1 - k,
        {
            r.push(line[k]);
            proof {
                assert(line@.subrange(st@.len() as int, k + 1) =~= line@.subrange(
                    st@.len() as int,
                    k as int,
                ).push(line@[k as int]));
            }
            k = k + 1;
        }
        r
    } else {
        Vec::new()
    }
}

impl WhiskyScanner {
    /// The scanner's name.
    pub fn name(&self) -> (r: &'static str)
        ensures
            r@ == "Whisky"@,
    {
        "Whisky"
    }

    /// The Windows path of a Unix path inside a bottle.
    pub fn unix_to_windows_path(&self, unix_path: &str) -> (r: Result<String, ScanError>)
        ensures
            r is Ok <==> contains(unix_path@, "/drive_c/"@),
            r matches Err(ScanError::NoDriveC(p)) ==> p@ == unix_path@,
            r matches Ok(w) ==> exists|i: int|
                first_occurrence(unix_path@, "/drive_c/"@, i) && w@ == "C:\\"@ + backslashed(
                    unix_path@.subrange(i + "/drive_c/"@.len(), unix_path@.len() as int),
                ),
    {
        windows_path_from_unix(unix_path)
    }

    /// The client installed at `ac_path` (a Unix path) in bottle
    /// `bottle_name`, whose prefix is `prefix_path`, run with `wine_exe`.
    pub fn client_at(&self, prefix_path: &str, wine_exe: &str, bottle_name: &str, ac_path: &str) -> (r: Result<
        ScannedClient,
        ScanError,
    >)
        ensures
            r is Ok <==> contains(ac_path@, "/drive_c/"@),
            r matches Err(ScanError::NoDriveC(p)) ==> p@ == ac_path@,
            r matches Ok(c) ==> {
                &&& c.display_name@ == "Whisky: "@ + bottle_name@
                &&& exists|i: int|
                    first_occurrence(ac_path@, "/drive_c/"@, i) && c.install_path@ == "C:\\"@
                        + backslashed(ac_path@.subrange(i + "/drive_c/"@.len(), ac_path@.len() as int))
                &&& c.wine_executable@ == wine_exe@
                &&& c.prefix_path@ == prefix_path@
            },
    {
        let install_path = windows_path_from_unix(ac_path)?;
        Ok(
            ScannedClient {
                display_name: labelled("Whisky: ", bottle_name),
                install_path,
                wine_executable: string_of(wine_exe),
                prefix_path: string_of(prefix_path),
            },
        )
    }

    /// The bottles that `whisky list` printed, in order.
    pub fn parse_bottle_list(&self, stdout: &str) -> (r: Vec<String>)
        ensures
            r@.len() == bottles_on_lines(lines_of(stdout@)).len(),
            forall|k: int| 0 <= k < r@.len() ==> (#[trigger] r@[k])@ == bottles_on_lines(lines_of(stdout@))[k],
            forall|k: int|
                0 <= k < r@.len() ==> (#[trigger] r@[k])@.len() > 0 && exists|j: int|
                    0 <= j < lines_of(stdout@).len() && is_bottle_row(lines_of(stdout@)[j]) && r@[k]@
                        == trim(split_on(lines_of(stdout@)[j], '|')[1]),
            forall|j: int|
                0 <= j < lines_of(stdout@).len() && #[trigger] is_bottle_row(lines_of(stdout@)[j])
                    ==> exists|k: int| 0 <= k < r@.len() && r@[k]@ == trim(split_on(lines_of(stdout@)[j], '|')[1]),
    {
        let v = chars_of(stdout);
        let ls = lines_chars(&v);
        let ghost lsv = lines_of(stdout@);
        let name = chars_of("Name");
        let mut r: Vec<String> = Vec::new();
        let mut i: usize = 0;
        while i < ls.len()
            invariant
                ls@.len() == lsv.len(),
                forall|k: int| 0 <= k < ls@.len() ==> (#[trigger] ls@[k])@ == lsv[k],
                name@ == "Name"@,
                i <= ls@.len(),
                r@.len() == bottles_on_lines(lsv.take(i as int)).len(),
                forall|k: int| 0 <= k < r@.len() ==> (#[trigger] r@[k])@ == bottles_on_lines(lsv.take(i as int))[k],
            decreases ls@.len() - i,
        {
            proof {
                assert(lsv.take(i + 1).drop_last() =~= lsv.take(i as int));
                assert(lsv.take(i + 1).last() == lsv[i as int]);
            }
            let line = &ls[i];
            let is_table_edge = starts_with_str(line, "+");
            let is_row = starts_with_str(line, "|");
            let is_header = is_row && find_chars(line, &name).is_some();
            if !is_table_edge && !is_header && is_row {
                let parts = split_chars(line, '|');
                if parts.len() >= 2 {
                    let b = trim_chars(&parts[1]);
                    if b.len() > 0 {
                        r.push(string_from_chars(&b));
                    }
                }
            }
            i = i + 1;
        }
        proof {
            assert(lsv.take(lsv.len() as int) =~= lsv);
            lemma_bottles_on_lines(lsv);
            assert forall|k: int| 0 <= k < r@.len() implies (#[trigger] r@[k])@.len() > 0 && exists|j: int|
                0 <= j < lines_of(stdout@).len() && is_bottle_row(lines_of(stdout@)[j]) && r@[k]@
                    == trim(split_on(lines_of(stdout@)[j], '|')[1]) by {
                assert(r@[k]@ == bottles_on_lines(lsv)[k]);
                let j = choose|j: int|
                    0 <= j < lsv.len() && bottle_on_line(lsv[j]) == Some(bottles_on_lines(lsv)[k]);
                lemma_bottle_row(lsv[j]);
                assert(is_bottle_row(lines_of(stdout@)[j]));
            }
            assert forall|j: int| 0 <= j < lsv.len() && #[trigger] is_bottle_row(lsv[j]) implies exists|k: int|
                0 <= k < r@.len() && r@[k]@ == trim(split_on(lsv[j], '|')[1]) by {
                lemma_bottle_row(lsv[j]);
                assert(bottle_on_line(lsv[j]) is Some);
                let k = choose|k: int|
                    0 <= k < bottles_on_lines(lsv).len() && bottles_on_lines(lsv)[k] == bottle_on_line(lsv[j])->0;
                assert(r@[k]@ == bottles_on_lines(lsv)[k]);
            }
        }
        r
    }

    /// The Wine settings that `whisky shellenv` printed.
    pub fn parse_shellenv(&self, stdout: &str) -> (r: ShellEnv)
        ensures
            r.path_lists@.len() == shellenv_of(lines_of(stdout@)).0.len(),
            forall|k: int| 0 <= k < r.path_lists@.len() ==> {
                &&& (#[trigger] r.path_lists@[k])@.len() == shellenv_of(lines_of(stdout@)).0[k].len()
                &&& forall|m: int| 0 <= m < r.path_lists@[k]@.len() ==> (#[trigger] r.path_lists@[k]@[m])@
                    == shellenv_of(lines_of(stdout@)).0[k][m]
            },
            opt_chars(r.prefix) == shellenv_of(lines_of(stdout@)).1,
    {
        let v = chars_of(stdout);
        let ls = lines_chars(&v);
        let ghost lsv = lines_of(stdout@);
        let mut paths: Vec<Vec<String>> = Vec::new();
        let mut prefix: Option<String> = None;
        let mut i: usize = 0;
        while i < ls.len()
            invariant
                ls@.len() == lsv.len(),
                forall|k: int| 0 <= k < ls@.len() ==> (#[trigger] ls@[k])@ == lsv[k],
                i <= ls@.len(),
                paths@.len() == shellenv_of(lsv.take(i as int)).0.len(),
                forall|k: int| 0 <= k < paths@.len() ==> {
                    &&& (#[trigger] paths@[k])@.len() == shellenv_of(lsv.take(i as int)).0[k].len()
                    &&& forall|m: int| 0 <= m < paths@[k]@.len() ==> (#[trigger] paths@[k]@[m])@
                        == shellenv_of(lsv.take(i as int)).0[k][m]
                },
                opt_chars(prefix) == shellenv_of(lsv.take(i as int)).1,
            decreases ls@.len() - i,
        {
            proof {
                assert(lsv.take(i + 1).drop_last() =~= lsv.take(i as int));
                assert(lsv.take(i + 1).last() == lsv[i as int]);
            }
            let line = &ls[i];
            if starts_with_str(line, "export PATH=") {
                let value = quoted_value_exec(line, "export PATH=\"");
                let dirs = split_chars(&value, ':');
                let mut list: Vec<String> = Vec::new();
                let mut m: usize = 0;
                while m < dirs.len()
                    invariant
                        m <= dirs@.len(),
                        list@.len() == m,
                        forall|q: int| 0 <= q < m ==> (#[trigger] list@[q])@ == dirs@[q]@,
                    decreases dirs@.len() - m,
                {
                    list.push(string_from_chars(&dirs[m]));
                    m = m + 1;
                }
                paths.push(list);
            } else if starts_with_str(line, "export WINEPREFIX=") {
                let value = quoted_value_exec(line, "export WINEPREFIX=\"");
                prefix = Some(string_from_chars(&value));
            }
            i = i + 1;
        }
        proof {
            assert(lsv.take(lsv.len() as int) =~= lsv);
        }
        ShellEnv { path_lists: paths, prefix }
    }
}

/// The view of an optional string.
pub open spec fn opt_chars(s: Option<String>) -> Option<Seq<char>> {
    match s {
        Some(v) => Some(v@),
        None => None,
    }
}

/// Some directory of list `l` holds the Wine executable.
pub open spec fn list_has_exe(found: Seq<Vec<bool>>, l: int) -> bool {
    exists|j: int| 0 <= j < found[l]@.len() && #[trigger] found[l]@[j]
}

/// Picks the Wine executable among the `PATH` lists of `whisky shellenv`:
/// `found[l][j]` tells whether directory `j` of list `l` holds one. A later
/// list wins over an earlier one; within a list the first directory wins.
pub fn select_wine_exe(found: &Vec<Vec<bool>>) -> (r: Option<(usize, usize)>)
    ensures
        match r {
            Some((l, j)) => {
                &&& l < found@.len()
                &&& j < found@[l as int]@.len()
                &&& found@[l as int]@[j as int]
                &&& forall|q: int| 0 <= q < j ==> !found@[l as int]@[q]
                &&& forall|m: int| l < m < found@.len() ==> !list_has_exe(found@, m)
            },
            None => forall|m: int| 0 <= m < found@.len() ==> !list_has_exe(found@, m),
        },
{
    let mut best: Option<(usize, usize)> = None;
    let mut l: usize = 0;
    while l < found.len()
        invariant
            l <= found@.len(),
            match best {
                Some((bl, bj)) => {
                    &&& bl < l
                    &&& bj < found@[bl as int]@.len()
                    &&& found@[bl as int]@[bj as int]
                    &&& forall|q: int| 0 <= q < bj ==> !found@[bl as int]@[q]
                    &&& forall|m: int| bl < m < l ==> !list_has_exe(found@, m)
                },
                None => forall|m: int| 0 <= m < l ==> !list_has_exe(found@, m),
            },
        decreases found@.len() - l,
    {
        let list = &found[l];
        let mut j: usize = 0;
        let mut hit: Option<usize> = None;
        while j < list.len() && hit.is_none()
            invariant
                list@ == found@[l as int]@,
                j <= list@.len(),
                match hit {
                    Some(h) => h < list@.len() && list@[h as int] && forall|q: int| 0 <= q < h ==> !list@[q],
                    None => forall|q: int| 0 <= q < j ==> !list@[q],
                },
            decreases list@.len() - j,
        {
            if list[j] {
                hit = Some(j);
            }
            j = j + 1;
        }
        match hit {
            Some(j) => {
                best = Some((l, j));
            },
            None => {},
        }
        l = l + 1;
    }
    best
}

/// `rest` joined to `base` as a Unix path (`Path::join`): an absolute `rest`
/// replaces `base`; otherwise a `/` separates them unless `base` is empty or
/// already ends in one.
pub open spec fn join_path(base: Seq<char>, rest: Seq<char>) -> Seq<char> {
    if rest.len() > 0 && rest[0] == '/' {
        rest
    } else if base.len() == 0 || base.last() == '/' {
        base + rest
    } else {
        base + seq!['/'] + rest
    }
}

/// The prefix that a `WINEPREFIX` value names: a leading `~/` stands for the
/// home directory, when it is known.
pub open spec fn expanded_prefix(value: Seq<char>, home: Option<Seq<char>>) -> Seq<char> {
    if starts_with(value, "~/"@) && home is Some {
        join_path(home->0, value.subrange(2, value.len() as int))
    } else {
        value
    }
}

/// Expands a leading `~/` of a `WINEPREFIX` value with the home directory.
pub fn expand_prefix(value: &str, home: Option<&str>) -> (r: String)
    ensures
        r@ == expanded_prefix(value@, match home {
            Some(h) => Some(h@),
            None => None,
        }),
{
    let v = chars_of(value);
    proof {
        reveal_strlit("~/");
    }
    if starts_with_str(&v, "~/") {
        match home {
            Some(h) => {
                let b = chars_of(h);
                let mut rest: Vec<char> = Vec::new();
                let mut k: usize = 2;
                while k < v.len()
                    invariant
                        2 <= k <= v@.len(),
                        rest@ == v@.subrange(2, k as int),
                    decreases v@.len() - k,
                {
                    rest.push(v[k]);
                    proof {
                        assert(v@.subrange(2, k + 1) =~= v@.subrange(2, k as int).push(v@[k as int]));
                    }
                    k = k + 1;
                }
                if rest.len() > 0 && rest[0] == '/' {
                    return string_from_chars(&rest);
                }
                let mut r = string_from_chars(&b);
                if !(b.len() == 0 || b[b.len() - 1] == '/') {
                    crate::text::string_push(&mut r, '/');
                }
                push_chars(&mut r, &rest);
                r
            },
            None => string_of(value),
        }
    } else {
        string_of(value)
    }
}

/// The scanner of a Windows installation's registry.
pub struct WindowsScanner {
    pub dll_path: String,
}

impl WindowsScanner {
    /// A scanner that would inject `dll_path`.
    pub fn new(dll_path: String) -> (r: WindowsScanner)
        ensures
            r.dll_path == dll_path,
    {
        WindowsScanner { dll_path }
    }

    /// The scanner's name.
    pub fn name(&self) -> (r: &'static str)
        ensures
            r@ == "Windows Registry"@,
    {
        "Windows Registry"
    }

    /// Registry scanning finds nothing yet.
    pub fn scan(&self) -> (r: Vec<ScannedClient>)
        ensures
            r@.len() == 0,
    {
        Vec::new()
    }
}

/// What `which wine64` found: its trimmed output, when the path it names
/// exists.
pub open spec fn which_found(which: Option<(&str, bool)>) -> Option<Seq<char>> {
    match which {
        Some((out, true)) => Some(trim(out@)),
        _ => None,
    }
}

/// The Wine executable that scans use: the first of `wine_candidates()`
/// that exists (`exists[i]` tells whether candidate `i` does), else the
/// trimmed output of `which wine64` (`which`: its output, and whether the
/// path it names exists) when that exists; else an error.
pub fn find_wine_executable(exists: &Vec<bool>, which: Option<(&str, bool)>) -> (r: Result<String, String>)
    requires
        exists@.len() == 4,
    ensures
        match r {
            Ok(p) => {
                ||| exists@[0] && p@ == "/usr/local/bin/wine64"@
                ||| !exists@[0] && exists@[1] && p@ == "/opt/homebrew/bin/wine64"@
                ||| !exists@[0] && !exists@[1] && exists@[2] && p@ == "/usr/bin/wine64"@
                ||| !exists@[0] && !exists@[1] && !exists@[2] && exists@[3] && p@ == "/usr/bin/wine"@
                ||| !exists@[0] && !exists@[1] && !exists@[2] && !exists@[3] && which_found(which)
                    == Some(p@)
            },
            Err(e) => e@ == "Could not find wine executable"@ && !exists@[0] && !exists@[1]
                && !exists@[2] && !exists@[3] && which_found(which) is None,
        },
{
    let candidates = wine_candidates();
    let mut i: usize = 0;
    while i < 4
        invariant
            exists@.len() == 4,
            candidates@.len() == 4,
            candidates@[0]@ == "/usr/local/bin/wine64"@,
            candidates@[1]@ == "/opt/homebrew/bin/wine64"@,
            candidates@[2]@ == "/usr/bin/wine64"@,
            candidates@[3]@ == "/usr/bin/wine"@,
            i <= 4,
            forall|j: int| 0 <= j < i ==> !exists@[j],
        decreases 4 - i,
    {
        if exists[i] {
            return Ok(candidates[i].clone());
        }
        i = i + 1;
    }
    match which {
        Some((out, true)) => Ok(trim_str(out)),
        _ => Err(string_of("Could not find wine executable")),
    }
}

} // verus!
