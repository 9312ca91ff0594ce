use vstd::prelude::*;
use crate::number::{parse_i32, parsed_i32};
use crate::text::{count_char, count_newlines, equal_text, find_char, lemma_run_before_bound, lit, run_before, texts};

verus! {

/// A supported package manager.
#[derive(Clone, Copy, Debug, PartialEq, Eq, Structural)]
pub enum Manager {
    Pacman,
    Apt,
    Xbps,
    Portage,
    Apk,
    Dnf,
}

/// The configured `package_managers` value: unset, or the names given (a single
/// name counts as a list of one).
#[derive(Debug)]
pub enum ManagerList {
    Unset,
    Names(Vec<String>),
}

/// The manager that a configured name stands for, if any.
pub open spec fn manager_named(s: Seq<char>) -> Option<Manager> {
    if s == "pacman"@ {
        Some(Manager::Pacman)
    } else if s == "apt"@ {
        Some(Manager::Apt)
    } else if s == "xbps"@ {
        Some(Manager::Xbps)
    } else if s == "portage"@ {
        Some(Manager::Portage)
    } else if s == "apk"@ {
        Some(Manager::Apk)
    } else if s == "dnf"@ {
        Some(Manager::Dnf)
    } else {
        None
    }
}

/// The recognised managers among `names`, in order; unknown names are skipped.
pub open spec fn recognized(names: Seq<Seq<char>>) -> Seq<Manager>
    decreases names.len(),
{
    if names.len() == 0 {
        Seq::empty()
    } else {
        let rest = recognized(names.drop_last());
        match manager_named(names.last()) {
            Some(m) => rest.push(m),
            None => rest,
        }
    }
}

/// The managers that a setting enables, or `None` where it is unset.
pub open spec fn enabled(setting: ManagerList) -> Option<Seq<Manager>> {
    match setting {
        ManagerList::Unset => None,
        ManagerList::Names(names) => Some(recognized(texts(names@))),
    }
}

impl Manager {
    /// The manager named `name`, if it is one of the six known names.
    pub fn from_name(name: &str) -> (r: Option<Manager>)
        ensures
            r == manager_named(name@),
    {
        let t = String::from_str(name);
        if t == lit("pacman") {
            Some(Manager::Pacman)
        } else if t == lit("apt") {
            Some(Manager::Apt)
        } else if t == lit("xbps") {
            Some(Manager::Xbps)
        } else if t == lit("portage") {
            Some(Manager::Portage)
        } else if t == lit("apk") {
            Some(Manager::Apk)
        } else if t == lit("dnf") {
            Some(Manager::Dnf)
        } else {
            None
        }
    }
}

/// The managers that `setting` enables, in order; `None` where it is unset.
pub fn configured_managers(setting: &ManagerList) -> (r: Option<Vec<Manager>>)
    ensures
        match r {
            Some(v) => enabled(*setting) == Some(v@),
            None => enabled(*setting) is None,
        },
{
    match setting {
        ManagerList::Unset => None,
        ManagerList::Names(names) => {
            let mut out: Vec<Manager> = Vec::new();
            let mut i: usize = 0;
            while i < names.len()
                invariant
                    i <= names.len(),
                    out@ == recognized(texts(names@.subrange(0, i as int))),
                decreases names.len() - i,
            {
                let ghost before = names@.subrange(0, i as int);
                assert(texts(names@.subrange(0, i + 1)).drop_last() =~= texts(before));
                assert(texts(names@.subrange(0, i + 1)).last() == names@[i as int]@);
                match Manager::from_name(names[i].as_str()) {
                    Some(m) => out.push(m),
                    None => {},
                }
                i = i + 1;
            }
            assert(names@.subrange(0, names.len() as int) =~= names@);
            Some(out)
        },
    }
}

/// The command line whose output tells how many updates a manager has pending.
pub open spec fn update_argv(m: Manager) -> Seq<Seq<char>> {
    match m {
        Manager::Pacman => seq!["checkupdates"@],
        Manager::Apt => seq!["apt"@, "list"@, "-u"@],
        Manager::Xbps => seq!["xbps-install"@, "-Sun"@],
        Manager::Portage => seq!["eix"@, "-u"@, "--format"@, "<installedversions:nameversion>"@],
        Manager::Apk => seq!["apk"@, "-u"@, "list"@],
        Manager::Dnf => seq!["dnf"@, "check-update"@],
    }
}

/// The command line whose output lists a manager's installed packages.
pub open spec fn installed_argv(m: Manager) -> Seq<Seq<char>> {
    match m {
        Manager::Pacman => seq!["pacman"@, "-Q"@],
        Manager::Apt => seq!["dpkg-query"@, "-l"@],
        Manager::Xbps => seq!["xbps-query"@, "-l"@],
        Manager::Portage => seq!["eix-installed"@, "-a"@],
        Manager::Apk => seq!["apk"@, "info"@],
        Manager::Dnf => seq!["dnf"@, "list"@, "installed"@],
    }
}

/// Appends a word to a command line.
fn push_word(v: &mut Vec<String>, w: &str)
    ensures
        texts(final(v)@) == texts(old(v)@).push(w@),
{
    v.push(String::from_str(w));
    assert(texts(final(v)@) =~= texts(old(v)@).push(w@));
}

/// A command line of the first `n` of the words given.
pub(crate) fn argv(a: &str, b: &str, c: &str, d: &str, n: usize) -> (r: Vec<String>)
    requires
        1 <= n <= 4,
    ensures
        texts(r@) == seq![a@, b@, c@, d@].subrange(0, n as int),
{
    let mut r: Vec<String> = Vec::new();
    push_word(&mut r, a);
    if n >= 2 {
        push_word(&mut r, b);
    }
    if n >= 3 {
        push_word(&mut r, c);
    }
    if n >= 4 {
        push_word(&mut r, d);
    }
    assert(texts(r@) =~= seq![a@, b@, c@, d@].subrange(0, n as int));
    r
}

impl Manager {
    /// Program and arguments to run to learn the pending updates.
    pub fn update_command(self) -> (r: Vec<String>)
        ensures
            texts(r@) == update_argv(self),
    {
        let r = match self {
            Manager::Pacman => argv("checkupdates", "", "", "", 1),
            Manager::Apt => argv("apt", "list", "-u", "", 3),
            Manager::Xbps => argv("xbps-install", "-Sun", "", "", 2),
            Manager::Portage => argv("eix", "-u", "--format", "<installedversions:nameversion>", 4),
            Manager::Apk => argv("apk", "-u", "list", "", 3),
            Manager::Dnf => argv("dnf", "check-update", "", "", 2),
        };
        assert(texts(r@) =~= update_argv(self));
        r
    }

    /// Program and arguments to run to list the installed packages.
    pub fn installed_command(self) -> (r: Vec<String>)
        ensures
            texts(r@) == installed_argv(self),
    {
        let r = match self {
            Manager::Pacman => argv("pacman", "-Q", "", "", 2),
            Manager::Apt => argv("dpkg-query", "-l", "", "", 2),
            Manager::Xbps => argv("xbps-query", "-l", "", "", 2),
            Manager::Portage => argv("eix-installed", "-a", "", "", 2),
            Manager::Apk => argv("apk", "info", "", "", 2),
            Manager::Dnf => argv("dnf", "list", "installed", "", 3),
        };
        assert(texts(r@) =~= installed_argv(self));
        r
    }
}

} // verus!

verus! {

/// Index just past the last line break of `t`, or 0 where it has none.
pub open spec fn line_start(t: Seq<char>) -> int
    decreases t.len(),
{
    if t.len() == 0 {
        0
    } else if t.last() == '\n' {
        t.len() as int
    } else {
        line_start(t.drop_last())
    }
}

/// The last line of `s`, without its line break (what `tail -1` prints).
pub open spec fn last_line(s: Seq<char>) -> Seq<char> {
    let t = if s.len() > 0 && s.last() == '\n' {
        s.drop_last()
    } else {
        s
    };
    t.subrange(line_start(t), t.len() as int)
}

/// The second space-separated field of a line, or the whole line where it
/// holds no space (as `cut -d' ' -f2` prints it).
pub open spec fn second_field(line: Seq<char>) -> Seq<char> {
    let p = run_before(line, ' ');
    if p == line.len() {
        line
    } else {
        let rest = line.subrange(p + 1, line.len() as int);
        rest.subrange(0, run_before(rest, ' '))
    }
}

/// The token that portage's update report ends with.
pub open spec fn portage_token(out: Seq<char>) -> Seq<char> {
    second_field(last_line(out))
}

/// Pending updates that a portage token stands for: none for `matches`, the
/// number it denotes, or 1 where it denotes none.
pub open spec fn portage_updates(token: Seq<char>) -> int {
    if token == "matches"@ {
        0
    } else {
        match parsed_i32(token) {
            Some(v) => v,
            None => 1,
        }
    }
}

/// `a - b`, or 0 where that is negative.
pub open spec fn minus_floor(a: int, b: int) -> int {
    if a >= b {
        a - b
    } else {
        0
    }
}

/// The pending updates that a manager's update command output reports.
pub open spec fn update_contribution(m: Manager, out: Seq<char>) -> int {
    let lines = count_char(out, '\n') as int;
    match m {
        Manager::Apt => minus_floor(lines, 2),
        Manager::Dnf => minus_floor(lines, 2),
        Manager::Portage => portage_updates(portage_token(out)),
        _ => lines,
    }
}

/// Lines of `s` holding `ii`, as `grep ii | wc -l` counts them; `prev_i` says
/// that the character before `s` was an `i` of the same line, `hit` that the
/// line begun before `s` already holds `ii`.
pub open spec fn lines_with_ii(s: Seq<char>, prev_i: bool, hit: bool) -> nat
    decreases s.len(),
{
    if s.len() == 0 {
        if hit { 1 } else { 0 }
    } else if s[0] == '\n' {
        (if hit { 1nat } else { 0nat }) + lines_with_ii(s.drop_first(), false, false)
    } else {
        lines_with_ii(s.drop_first(), s[0] == 'i', hit || (prev_i && s[0] == 'i'))
    }
}

/// The installed packages that a manager's listing output reports.
pub open spec fn installed_contribution(m: Manager, out: Seq<char>) -> int {
    let lines = count_char(out, '\n') as int;
    match m {
        Manager::Apt => lines_with_ii(out, false, false) as int,
        Manager::Dnf => minus_floor(lines, 1),
        _ => lines,
    }
}

proof fn lemma_line_start(t: Seq<char>, r: int)
    requires
        0 <= r <= t.len(),
        forall|k: int| r <= k < t.len() ==> t[k] != '\n',
        r > 0 ==> t[r - 1] == '\n',
    ensures
        line_start(t) == r,
    decreases t.len(),
{
    if t.len() > r {
        lemma_line_start(t.drop_last(), r);
    }
}

/// The last line of `s` without its line break.
pub fn tail_line(s: &str) -> (r: &str)
    ensures
        r@ == last_line(s@),
{
    let n = s.unicode_len();
    let mut end: usize = n;
    if n > 0 && s.get_char(n - 1) == '\n' {
        end = n - 1;
    }
    let ghost t = s@.subrange(0, end as int);
    let mut i: usize = end;
    while i > 0 && s.get_char(i - 1) != '\n'
        invariant
            n == s@.len(),
            i <= end <= n,
            t == s@.subrange(0, end as int),
            forall|k: int| i <= k < end ==> s@[k] != '\n',
        decreases i,
    {
        i = i - 1;
    }
    proof {
        lemma_line_start(t, i as int);
        assert(t =~= if s@.len() > 0 && s@.last() == '\n' { s@.drop_last() } else { s@ });
    }
    let r = s.substring_char(i, end);
    assert(r@ =~= t.subrange(i as int, end as int));
    r
}

/// The second space-separated field of `line`, or all of it where it holds
/// no space.
pub fn field_two(line: &str) -> (r: &str)
    ensures
        r@ == second_field(line@),
{
    let n = line.unicode_len();
    let p = find_char(line, ' ');
    proof {
        lemma_run_before_bound(line@, ' ');
    }
    if p == n {
        line
    } else {
        let rest = line.substring_char(p + 1, n);
        let q = find_char(rest, ' ');
        proof {
            assert(q <= rest@.len()) by {
                lemma_run_before_bound(rest@, ' ');
            }
        }
        rest.substring_char(0, q)
    }
}

/// The updates that a portage token stands for: 0 for `matches`, the number
/// it denotes, or 1 otherwise.
pub fn portage_count(token: &str) -> (r: i32)
    ensures
        r == portage_updates(token@),
{
    if equal_text(token, "matches") {
        0
    } else {
        match parse_i32(token) {
            Some(v) => v,
            None => 1,
        }
    }
}

/// The number of lines of `s` that hold `ii`.
pub fn count_ii_lines(s: &str) -> (r: usize)
    ensures
        r == lines_with_ii(s@, false, false),
{
    let n = s.unicode_len();
    let mut i: usize = 0;
    let mut acc: usize = 0;
    let mut prev_i = false;
    let mut hit = false;
    assert(s@.subrange(0, n as int) =~= s@);
    while i < n
        invariant
            n == s@.len(),
            i <= n,
            acc <= i,
            acc + lines_with_ii(s@.subrange(i as int, n as int), prev_i, hit)
                == lines_with_ii(s@, false, false),
            hit ==> acc < i,
        decreases n - i,
    {
        let c = s.get_char(i);
        let ghost rest = s@.subrange(i as int, n as int);
        assert(rest.drop_first() =~= s@.subrange(i + 1, n as int));
        assert(rest[0] == c);
        if c == '\n' {
            if hit {
                acc = acc + 1;
            }
            prev_i = false;
            hit = false;
        } else {
            hit = hit || (prev_i && c == 'i');
            prev_i = c == 'i';
        }
        i = i + 1;
    }
    assert(s@.subrange(n as int, n as int) =~= Seq::<char>::empty());
    if hit {
        acc = acc + 1;
    }
    acc
}

fn floor_sub(a: usize, b: usize) -> (r: usize)
    ensures
        r == minus_floor(a as int, b as int),
{
    if a >= b {
        a - b
    } else {
        0
    }
}

impl Manager {
    /// The pending updates reported by this manager's update command output.
    pub fn updates_in(self, out: &str) -> (r: i128)
        ensures
            r == update_contribution(self, out@),
            i32::MIN <= r <= u64::MAX,
    {
        let lines = count_newlines(out);
        match self {
            Manager::Apt | Manager::Dnf => floor_sub(lines, 2) as i128,
            Manager::Portage => portage_count(field_two(tail_line(out))) as i128,
            _ => lines as i128,
        }
    }

    /// The installed packages reported by this manager's listing output.
    pub fn installed_in(self, out: &str) -> (r: i128)
        ensures
            r == installed_contribution(self, out@),
            0 <= r <= u64::MAX,
    {
        match self {
            Manager::Apt => count_ii_lines(out) as i128,
            Manager::Dnf => floor_sub(count_newlines(out), 1) as i128,
            _ => count_newlines(out) as i128,
        }
    }
}

} // verus!

verus! {

/// What a tally counts from the managers' outputs.
#[derive(Clone, Copy, Debug, PartialEq, Eq, Structural)]
pub enum Tally {
    Updates,
    Installed,
}

/// What one manager's output adds to a tally.
pub open spec fn contribution(kind: Tally, m: Manager, out: Seq<char>) -> int {
    match kind {
        Tally::Updates => update_contribution(m, out),
        Tally::Installed => installed_contribution(m, out),
    }
}

/// The sum of the contributions of each manager's output.
pub open spec fn tally_sum(kind: Tally, ms: Seq<Manager>, outs: Seq<Seq<char>>) -> int
    decreases ms.len(),
{
    if ms.len() == 0 || outs.len() == 0 {
        0
    } else {
        tally_sum(kind, ms.drop_last(), outs.drop_last()) + contribution(kind, ms.last(), outs.last())
    }
}

/// Whether every running sum of the tally stays within `i64`.
pub open spec fn tally_fits(kind: Tally, ms: Seq<Manager>, outs: Seq<Seq<char>>) -> bool
    decreases ms.len(),
{
    if ms.len() == 0 || outs.len() == 0 {
        true
    } else {
        tally_fits(kind, ms.drop_last(), outs.drop_last())
            && i64::MIN <= tally_sum(kind, ms, outs) <= i64::MAX
    }
}

impl Manager {
    /// What this manager's output adds to a tally of `kind`.
    pub fn count_in(self, kind: Tally, out: &str) -> (r: i128)
        ensures
            r == contribution(kind, self, out@),
            i32::MIN <= r <= u64::MAX,
    {
        match kind {
            Tally::Updates => self.updates_in(out),
            Tally::Installed => self.installed_in(out),
        }
    }
}

/// Sums what each manager's output reports; `None` where a running sum
/// leaves `i64`.
pub fn tally(kind: Tally, ms: &Vec<Manager>, outs: &Vec<String>) -> (r: Option<i64>)
    requires
        ms.len() == outs.len(),
    ensures
        r is Some <==> tally_fits(kind, ms@, texts(outs@)),
        r is Some ==> r->0 == tally_sum(kind, ms@, texts(outs@)),
{
    let mut acc: i64 = 0;
    let mut i: usize = 0;
    while i < ms.len()
        invariant
            ms.len() == outs.len(),
            i <= ms.len(),
            tally_fits(kind, ms@.subrange(0, i as int), texts(outs@).subrange(0, i as int)),
            acc == tally_sum(kind, ms@.subrange(0, i as int), texts(outs@).subrange(0, i as int)),
        decreases ms.len() - i,
    {
        let ghost ms1 = ms@.subrange(0, i + 1);
        let ghost os1 = texts(outs@).subrange(0, i + 1);
        assert(ms1.drop_last() =~= ms@.subrange(0, i as int));
        assert(os1.drop_last() =~= texts(outs@).subrange(0, i as int));
        assert(os1.last() == outs@[i as int]@);
        let c = ms[i].count_in(kind, outs[i].as_str());
        let next: i128 = acc as i128 + c;
        if next < i64::MIN as i128 || next > i64::MAX as i128 {
            proof {
                if tally_fits(kind, ms@, texts(outs@)) {
                    lemma_fits_prefix(kind, ms@, texts(outs@), i + 1);
                }
            }
            return None;
        }
        acc = next as i64;
        i = i + 1;
    }
    assert(ms@.subrange(0, i as int) =~= ms@);
    assert(texts(outs@).subrange(0, i as int) =~= texts(outs@));
    Some(acc)
}

proof fn lemma_fits_prefix(kind: Tally, ms: Seq<Manager>, outs: Seq<Seq<char>>, k: int)
    requires
        0 <= k <= ms.len(),
        ms.len() == outs.len(),
        tally_fits(kind, ms, outs),
    ensures
        tally_fits(kind, ms.subrange(0, k), outs.subrange(0, k)),
    decreases ms.len(),
{
    if k < ms.len() {
        assert(ms.drop_last() =~= ms.subrange(0, ms.len() - 1));
        lemma_fits_prefix(kind, ms.drop_last(), outs.drop_last(), k);
        assert(ms.drop_last().subrange(0, k) =~= ms.subrange(0, k));
        assert(outs.drop_last().subrange(0, k) =~= outs.subrange(0, k));
    } else {
        assert(ms.subrange(0, k) =~= ms);
        assert(outs.subrange(0, k) =~= outs);
    }
}

/// The tally for a setting: `Some(-1)` where no manager is configured, else
/// the sum over the enabled managers' outputs (given in the same order), or
/// `None` where a running sum leaves `i64`.
pub open spec fn tally_for(kind: Tally, setting: ManagerList, outs: Seq<Seq<char>>) -> Option<int> {
    match enabled(setting) {
        None => Some(-1),
        Some(ms) => if tally_fits(kind, ms, outs) {
            Some(tally_sum(kind, ms, outs))
        } else {
            None
        },
    }
}

fn tally_setting(kind: Tally, setting: &ManagerList, outs: &Vec<String>) -> (r: Option<i64>)
    requires
        enabled(*setting) is Some ==> outs.len() == enabled(*setting)->0.len(),
    ensures
        match r {
            Some(v) => tally_for(kind, *setting, texts(outs@)) == Some(v as int),
            None => tally_for(kind, *setting, texts(outs@)) is None,
        },
{
    match configured_managers(setting) {
        None => Some(-1),
        Some(ms) => tally(kind, &ms, outs),
    }
}

/// The pending updates over the configured managers, from the output of each
/// enabled manager's `update_command`; -1 where none is configured.
pub fn check_updates(setting: &ManagerList, outs: &Vec<String>) -> (r: Option<i64>)
    requires
        enabled(*setting) is Some ==> outs.len() == enabled(*setting)->0.len(),
    ensures
        match r {
            Some(v) => tally_for(Tally::Updates, *setting, texts(outs@)) == Some(v as int),
            None => tally_for(Tally::Updates, *setting, texts(outs@)) is None,
        },
{
    tally_setting(Tally::Updates, setting, outs)
}

/// The installed packages over the configured managers, from the output of
/// each enabled manager's `installed_command`; -1 where none is configured.
pub fn get_package_count(setting: &ManagerList, outs: &Vec<String>) -> (r: Option<i64>)
    requires
        enabled(*setting) is Some ==> outs.len() == enabled(*setting)->0.len(),
    ensures
        match r {
            Some(v) => tally_for(Tally::Installed, *setting, texts(outs@)) == Some(v as int),
            None => tally_for(Tally::Installed, *setting, texts(outs@)) is None,
        },
{
    tally_setting(Tally::Installed, setting, outs)
}

} // verus!
