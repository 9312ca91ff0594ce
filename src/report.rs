use vstd::prelude::*;
use crate::clock::{datetime_text, get_datetime, greeting, salutation, LocalTime, TimeFormat};
use crate::number::{decimal_text, digits_of, signed_text, unsigned_text};
use crate::packages::argv;
use crate::text::{
    calc_whitespace, calc_with_hostname, capitalized, equal_text, get_kernel, get_release,
    lit, padded_row, release_clean, shorten, shortened, texts, trim_end, trim_end_char, upper_first,
};
use crate::weather::{get_weather, weather_text};

verus! {

/// The updates row text for a tally; `│ none` for the unconfigured -1.
pub open spec fn updates_text(n: int) -> Seq<char> {
    if n == -1 {
        "\u{2502} none"@
    } else if n == 0 {
        "\u{2502} \u{2611}\u{fe0f} Up to date"@
    } else if n == 1 {
        "\u{2502} 1\u{fe0f}\u{20e3} 1 update"@
    } else if 2 <= n <= 9 {
        "\u{2502} "@ + decimal_text(n) + "\u{fe0f}\u{20e3} "@ + decimal_text(n) + " updates"@
    } else if n == 10 {
        "\u{2502} \u{1f51f} 10 updates"@
    } else {
        "\u{2502} \u{203c}\u{fe0f} "@ + decimal_text(n) + " updates"@
    }
}

/// The updates row text for a tally of pending updates.
pub fn count_updates(count: i64) -> (r: String)
    ensures
        r@ == updates_text(count as int),
{
    if count == -1 {
        lit("\u{2502} none")
    } else if count == 0 {
        lit("\u{2502} \u{2611}\u{fe0f} Up to date")
    } else if count == 1 {
        lit("\u{2502} 1\u{fe0f}\u{20e3} 1 update")
    } else if 2 <= count && count <= 9 {
        let d = signed_text(count);
        lit("\u{2502} ").concat(d.as_str()).concat("\u{fe0f}\u{20e3} ").concat(d.as_str()).concat(
            " updates",
        )
    } else if count == 10 {
        lit("\u{2502} \u{1f51f} 10 updates")
    } else {
        lit("\u{2502} \u{203c}\u{fe0f} ").concat(signed_text(count).as_str()).concat(" updates")
    }
}

/// The installed-packages row text for a tally; none for the unconfigured -1.
pub open spec fn packages_text(n: int) -> Option<Seq<char>> {
    if n == -1 {
        None
    } else if n == 0 {
        Some("\u{2502} \u{1f4e6} No packages"@)
    } else if n == 1 {
        Some("\u{2502} \u{1f4e6} 1 package"@)
    } else {
        Some("\u{2502} \u{1f4e6} "@ + decimal_text(n) + " packages"@)
    }
}

/// The installed-packages row text for a tally.
pub fn package_row(count: i64) -> (r: Option<String>)
    ensures
        match r {
            Some(s) => packages_text(count as int) == Some(s@),
            None => packages_text(count as int) is None,
        },
{
    if count == -1 {
        None
    } else if count == 0 {
        Some(lit("\u{2502} \u{1f4e6} No packages"))
    } else if count == 1 {
        Some(lit("\u{2502} \u{1f4e6} 1 package"))
    } else {
        Some(lit("\u{2502} \u{1f4e6} ").concat(signed_text(count).as_str()).concat(" packages"))
    }
}

/// The song text from the player query's error and output streams: empty
/// where no player runs.
pub open spec fn song_shown(err: Seq<char>, out: Seq<char>) -> Seq<char> {
    if trim_end(err, '\n') == "No players found"@ {
        Seq::empty()
    } else {
        shortened(trim_end(out, '\n'))
    }
}

/// The song text from the player query's error and output streams.
pub fn get_song(err: &str, out: &str) -> (r: String)
    ensures
        r@ == song_shown(err@, out@),
{
    if equal_text(trim_end_char(err, '\n'), "No players found") {
        String::new()
    } else {
        shorten(trim_end_char(out, '\n'))
    }
}

/// The player query that reports the playing song as `artist - title`.
pub fn song_command() -> (r: Vec<String>)
    ensures
        texts(r@) == seq!["playerctl"@, "metadata"@, "-f"@, "{{ artist }} - {{ title }}"@],
{
    let r = argv("playerctl", "metadata", "-f", "{{ artist }} - {{ title }}", 4);
    assert(texts(r@) =~= seq!["playerctl"@, "metadata"@, "-f"@, "{{ artist }} - {{ title }}"@]);
    r
}

/// The query for the operating-system release.
pub fn release_command() -> (r: Vec<String>)
    ensures
        texts(r@) == seq!["lsb_release"@, "-s"@, "-d"@],
{
    let r = argv("lsb_release", "-s", "-d", "", 3);
    assert(texts(r@) =~= seq!["lsb_release"@, "-s"@, "-d"@]);
    r
}

/// The query for the kernel name and version.
pub fn kernel_command() -> (r: Vec<String>)
    ensures
        texts(r@) == seq!["uname"@, "-sr"@],
{
    let r = argv("uname", "-sr", "", "", 2);
    assert(texts(r@) =~= seq!["uname"@, "-sr"@]);
    r
}

/// The processor-load text for a load given in tenths of a percent point.
pub fn get_cpu(load: u32) -> (r: String)
    ensures
        r@ == digits_of(load as nat) + "% Used"@,
{
    unsigned_text(load as u64).concat("% Used")
}

/// Everything the report shows, gathered.
#[derive(Debug)]
pub struct Facts {
    pub hostname: String,
    pub name: String,
    pub time: LocalTime,
    pub time_format: TimeFormat,
    /// The weather icon code, condition name and temperature text.
    pub weather_code: String,
    pub weather_condition: String,
    pub temperature: String,
    pub units: String,
    /// What the release and kernel queries printed.
    pub release: String,
    pub kernel: String,
    pub cpu: String,
    /// The memory in use and the free disk space, as sizes.
    pub memory: String,
    pub disk: String,
    /// The desktop environment; empty where there is none.
    pub desktop: String,
    /// The update and package tallies; -1 where no manager is configured.
    pub updates: i64,
    pub packages: i64,
    /// The playing song; empty where there is none.
    pub song: String,
}

/// A body row.
pub open spec fn body(text: Seq<char>) -> Seq<char> {
    padded_row(text, 45, " "@, "\u{2502}"@)
}

/// The rows always shown, top to bottom.
pub open spec fn fixed_rows(f: Facts) -> Seq<Seq<char>> {
    seq![
        padded_row(
            "\u{256d}\u{2500}\u{1b}[32m"@ + f.hostname@ + "\u{1b}[0m"@,
            55,
            "\u{2500}"@,
            "\u{256e}"@,
        ),
        body("\u{2502} "@ + salutation(f.time.hour as int) + ", "@ + f.name@ + "!"@),
        body(datetime_text(f.time, f.time_format)),
        body(weather_text(f.weather_code@, f.weather_condition@, f.temperature@, f.units@)),
        body("\u{2502} \u{1f4bb} "@ + shortened(release_clean(f.release@))),
        body("\u{2502} \u{1fac0} "@ + shortened(trim_end(f.kernel@, '\n'))),
        body("\u{2502} \u{1f50c} "@ + f.cpu@),
        body("\u{2502} \u{1f9e0} "@ + f.memory@ + " Used"@),
        body("\u{2502} \u{1f4be} "@ + f.disk@ + " Free"@),
    ]
}

/// The optional rows that `f` calls for, in order.
pub open spec fn optional_rows(f: Facts) -> Seq<Seq<char>> {
    let desktop = if f.desktop@.len() > 0 {
        seq![body("\u{2502} \u{1f5a5}\u{fe0f} "@ + capitalized(f.desktop@))]
    } else {
        Seq::empty()
    };
    let updates = if f.updates != -1 {
        seq![body(updates_text(f.updates as int))]
    } else {
        Seq::empty()
    };
    let packages = match packages_text(f.packages as int) {
        Some(t) => seq![body(t)],
        None => Seq::empty(),
    };
    let song = if f.song@.len() > 0 {
        seq![body("\u{2502} \u{1f3b5} "@ + trim_end(f.song@, '\n'))]
    } else {
        Seq::empty()
    };
    desktop + updates + packages + song
}

/// The closing line of the box.
pub open spec fn bottom_line() -> Seq<char> {
    "\u{2570}"@ + crate::text::repeated("\u{2500}"@, 45) + "\u{256f}"@
}

/// The report, line by line.
pub open spec fn report_lines(f: Facts) -> Seq<Seq<char>> {
    fixed_rows(f) + optional_rows(f) + seq![bottom_line()]
}

fn push_body(lines: &mut Vec<String>, text: String)
    ensures
        texts(final(lines)@) == texts(old(lines)@).push(body(text@)),
{
    lines.push(calc_whitespace(text));
    assert(texts(final(lines)@) =~= texts(old(lines)@).push(body(text@)));
}

/// Lays out the report: the header, the fixed rows, the optional rows that
/// the facts call for, and the closing line.
pub fn report(f: &Facts) -> (r: Vec<String>)
    requires
        f.time.wf(),
    ensures
        texts(r@) == report_lines(*f),
        r@.len() == 10 + (if f.desktop@.len() > 0 { 1int } else { 0 }) + (if f.updates != -1 {
            1int
        } else {
            0
        }) + (if f.packages != -1 { 1int } else { 0 }) + (if f.song@.len() > 0 { 1int } else { 0 }),
{
    let mut lines: Vec<String> = Vec::new();
    let header = lit("\u{256d}\u{2500}\u{1b}[32m").concat(f.hostname.as_str()).concat("\u{1b}[0m");
    lines.push(calc_with_hostname(header));
    let hello = lit("\u{2502} ").concat(greeting(f.time.hour, f.name.as_str()).as_str()).concat("!");
    assert(hello@ =~= "\u{2502} "@ + salutation(f.time.hour as int) + ", "@ + f.name@ + "!"@);
    push_body(&mut lines, hello);
    push_body(&mut lines, get_datetime(f.time, f.time_format));
    push_body(
        &mut lines,
        get_weather(
            f.weather_code.as_str(),
            f.weather_condition.as_str(),
            f.temperature.as_str(),
            f.units.as_str(),
        ),
    );
    push_body(&mut lines, lit("\u{2502} \u{1f4bb} ").concat(get_release(f.release.as_str()).as_str()));
    push_body(&mut lines, lit("\u{2502} \u{1fac0} ").concat(get_kernel(f.kernel.as_str()).as_str()));
    push_body(&mut lines, lit("\u{2502} \u{1f50c} ").concat(f.cpu.as_str()));
    let memory = lit("\u{2502} \u{1f9e0} ").concat(f.memory.as_str()).concat(" Used");
    assert(memory@ =~= "\u{2502} \u{1f9e0} "@ + f.memory@ + " Used"@);
    push_body(&mut lines, memory);
    let disk = lit("\u{2502} \u{1f4be} ").concat(f.disk.as_str()).concat(" Free");
    assert(disk@ =~= "\u{2502} \u{1f4be} "@ + f.disk@ + " Free"@);
    push_body(&mut lines, disk);
    assert(texts(lines@)[0] == fixed_rows(*f)[0]);
    assert(texts(lines@) =~= fixed_rows(*f));
    let ghost fixed = texts(lines@);
    let ghost mut extra: Seq<Seq<char>> = Seq::empty();
    if f.desktop.as_str().unicode_len() > 0 {
        push_body(&mut lines, lit("\u{2502} \u{1f5a5}\u{fe0f} ").concat(upper_first(f.desktop.clone()).as_str()));
        proof {
            extra = extra.push(body("\u{2502} \u{1f5a5}\u{fe0f} "@ + capitalized(f.desktop@)));
        }
    }
    assert(texts(lines@) =~= fixed + extra);
    if f.updates != -1 {
        push_body(&mut lines, count_updates(f.updates));
        proof {
            extra = extra.push(body(updates_text(f.updates as int)));
        }
    }
    assert(texts(lines@) =~= fixed + extra);
    match package_row(f.packages) {
        Some(t) => {
            push_body(&mut lines, t);
            proof {
                extra = extra.push(body(packages_text(f.packages as int)->0));
            }
        },
        None => {},
    }
    assert(texts(lines@) =~= fixed + extra);
    if f.song.as_str().unicode_len() > 0 {
        push_body(&mut lines, lit("\u{2502} \u{1f3b5} ").concat(trim_end_char(f.song.as_str(), '\n')));
        proof {
            extra = extra.push(body("\u{2502} \u{1f3b5} "@ + trim_end(f.song@, '\n')));
        }
    }
    assert(texts(lines@) =~= fixed + extra);
    assert(extra =~= optional_rows(*f));
    lines.push(bottom());
    assert(texts(lines@) =~= report_lines(*f));
    lines
}

fn bottom() -> (r: String)
    ensures
        r@ == bottom_line(),
{
    let mut r = lit("\u{2570}");
    let mut i: usize = 0;
    while i < 45
        invariant
            i <= 45,
            r@ == "\u{2570}"@ + crate::text::repeated("\u{2500}"@, i as nat),
        decreases 45 - i,
    {
        r.append("\u{2500}");
        i = i + 1;
        assert(r@ =~= "\u{2570}"@ + crate::text::repeated("\u{2500}"@, i as nat));
    }
    r.append("\u{256f}");
    r
}

} // verus!
