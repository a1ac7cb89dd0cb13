//! The texts shown and written when the editor meets an unrecoverable error.
//!
//! Installing the panic hook, showing the dialog, reading system information and writing the
//! crash file are done by the program; numbers arrive already written as text.
use vstd::prelude::*;

verus! {

/// The message of a panic whose payload is not text.
pub open spec fn unknown_error() -> Seq<char> {
    "An unrecoverable error has occurred."@
}

/// The message of a panic: its payload when that is text, else a general message.
pub fn panic_message(payload: Option<String>) -> (m: String)
    ensures
        m@ == match payload {
            Some(p) => p@,
            None => unknown_error(),
        },
{
    match payload {
        Some(p) => p,
        None => "An unrecoverable error has occurred.".to_owned(),
    }
}

/// Where a panic happened, or `Unknown location`.
pub fn panic_location(location: Option<String>) -> (l: String)
    ensures
        l@ == match location {
            Some(p) => p@,
            None => "Unknown location"@,
        },
{
    match location {
        Some(p) => p,
        None => "Unknown location".to_owned(),
    }
}

/// The text of the dialog that announces the crash.
pub open spec fn dialog_text(message: Seq<char>, crash_file: Seq<char>) -> Seq<char> {
    "An unrecoverable error has occurred, the editor will shut down.\nThe error was: "@ + message
        + "\n\nA crash file will be generated at "@ + crash_file
}

/// The text of the dialog that announces the crash, naming the error and the crash file.
pub fn crash_dialog_text(message: &str, crash_file: &str) -> (s: String)
    ensures
        s@ == dialog_text(message@, crash_file@),
{
    let mut s = "An unrecoverable error has occurred, the editor will shut down.\nThe error was: ".to_owned();
    s.append(message);
    s.append("\n\nA crash file will be generated at ");
    s.append(crash_file);
    s
}

/// One processor, as the crash file lists it.
#[derive(Debug)]
pub struct CpuInfo {
    pub name: String,
    pub frequency: String,
    pub brand: String,
    pub usage: String,
}

/// What the crash file records.
#[derive(Debug)]
pub struct CrashReport {
    /// The operating system's long version, when known.
    pub os_version: Option<String>,
    pub used_memory: String,
    pub total_memory: String,
    /// The number of processors.
    pub cpu_count: String,
    /// The brand of the first processor.
    pub cpu_brand: String,
    pub cpus: Vec<CpuInfo>,
    pub message: String,
    pub location: String,
    pub backtrace: String,
    /// The raw panic information.
    pub raw: String,
}

/// The line of one processor.
pub open spec fn cpu_line(c: CpuInfo) -> Seq<char> {
    c.name@ + ": "@ + c.frequency@ + "Hz ("@ + c.brand@ + ") "@ + c.usage@ + "%\n"@
}

/// The lines of the processors, in order.
pub open spec fn cpu_lines(cpus: Seq<CpuInfo>) -> Seq<char>
    decreases cpus.len(),
{
    if cpus.len() == 0 {
        Seq::empty()
    } else {
        cpu_lines(cpus.drop_last()) + cpu_line(cpus.last())
    }
}

/// The content of the crash file.
pub open spec fn report_text(r: CrashReport) -> Seq<char> {
    let os = match r.os_version {
        Some(v) => v@,
        None => "Unknown"@,
    };
    "--- DungeonRS Crash Report ---\n"@
        + "Please provide the contents of this file when creating a bug report.\n"@ + "\n"@ + "\n"@
        + "Operating System: "@ + os + "\n"@
        + "Memory: "@ + r.used_memory@ + "/"@ + r.total_memory@ + "\n"@
        + "CPU: "@ + r.cpu_count@ + " Cores "@ + r.cpu_brand@ + "\n"@
        + cpu_lines(r.cpus@)
        + "\n"@ + "---\n"@
        + "Error: "@ + r.message@ + "\n"@
        + "Location: "@ + r.location@ + "\n"@
        + "Backtrace: "@ + r.backtrace@ + "\n"@
        + "---\n"@
        + "Raw: "@ + r.raw@ + "\n"@
}

/// Writes the content of the crash file.
pub fn crash_report(r: &CrashReport) -> (s: String)
    ensures
        s@ == report_text(*r),
{
    let mut s = "--- DungeonRS Crash Report ---\n".to_owned();
    s.append("Please provide the contents of this file when creating a bug report.\n");
    s.append("\n");
    s.append("\n");
    s.append("Operating System: ");
    match &r.os_version {
        Some(v) => s.append(v.as_str()),
        None => s.append("Unknown"),
    }
    s.append("\n");
    s.append("Memory: ");
    s.append(r.used_memory.as_str());
    s.append("/");
    s.append(r.total_memory.as_str());
    s.append("\n");
    s.append("CPU: ");
    s.append(r.cpu_count.as_str());
    s.append(" Cores ");
    s.append(r.cpu_brand.as_str());
    s.append("\n");
    let ghost head = s@;
    let mut i: usize = 0;
    while i < r.cpus.len()
        invariant
            i <= r.cpus.len(),
            s@ == head + cpu_lines(r.cpus@.take(i as int)),
        decreases r.cpus.len() - i,
    {
        let c = &r.cpus[i];
        s.append(c.name.as_str());
        s.append(": ");
        s.append(c.frequency.as_str());
        s.append("Hz (");
        s.append(c.brand.as_str());
        s.append(") ");
        s.append(c.usage.as_str());
        s.append("%\n");
        proof {
            assert(r.cpus@.take(i + 1).drop_last() =~= r.cpus@.take(i as int));
            assert(r.cpus@.take(i + 1).last() == *c);
        }
        i += 1;
    }
    proof {
        assert(r.cpus@.take(i as int) =~= r.cpus@);
    }
    s.append("\n");
    s.append("---\n");
    s.append("Error: ");
    s.append(r.message.as_str());
    s.append("\n");
    s.append("Location: ");
    s.append(r.location.as_str());
    s.append("\n");
    s.append("Backtrace: ");
    s.append(r.backtrace.as_str());
    s.append("\n");
    s.append("---\n");
    s.append("Raw: ");
    s.append(r.raw.as_str());
    s.append("\n");
    proof {
        assert(s@ =~= report_text(*r));
    }
    s
}

/// The first line of every crash file.
pub open spec fn report_header() -> Seq<char> {
    "--- DungeonRS Crash Report ---\n"@
}

/// Whether `line` stands in `text` as a whole line: right after a line break.
pub open spec fn has_line(text: Seq<char>, line: Seq<char>) -> bool {
    exists|i: int| 0 < i && i + line.len() <= text.len() && text[i - 1] == '\n'
        && #[trigger] text.subrange(i, i + line.len()) == line
}

/// The crash file names the error and where it happened: it starts with the report's
/// header and holds the line `Error: <message>` and the line `Location: <location>`. With
/// [`panic_message`] and [`panic_location`], the message is the panic's text payload (or a
/// general message) and the location is where it panicked (or `Unknown location`).
#[verifier::spinoff_prover]
#[verifier::rlimit(50)]
pub proof fn lemma_report_names_error(r: CrashReport)
    ensures
        report_text(r).take(report_header().len() as int) == report_header(),
        has_line(report_text(r), "Error: "@ + r.message@ + "\n"@),
        has_line(report_text(r), "Location: "@ + r.location@ + "\n"@),
{
    let os = match r.os_version {
        Some(v) => v@,
        None => "Unknown"@,
    };
    let t1 = "--- DungeonRS Crash Report ---\n"@
        + "Please provide the contents of this file when creating a bug report.\n"@ + "\n"@ + "\n"@
        + "Operating System: "@ + os + "\n"@
        + "Memory: "@ + r.used_memory@ + "/"@ + r.total_memory@ + "\n"@
        + "CPU: "@ + r.cpu_count@ + " Cores "@ + r.cpu_brand@ + "\n"@
        + cpu_lines(r.cpus@)
        + "\n"@ + "---\n"@;
    let t2 = t1 + "Error: "@ + r.message@ + "\n"@;
    let t3 = t2 + "Location: "@ + r.location@ + "\n"@;
    let text = report_text(r);
    let error = "Error: "@ + r.message@ + "\n"@;
    let location = "Location: "@ + r.location@ + "\n"@;
    assert(text.take(t3.len() as int) =~= t3);
    assert(text.take(report_header().len() as int) =~= report_header()) by {
        assert(t1.take(report_header().len() as int) =~= report_header());
    }
    reveal_strlit("---\n");
    reveal_strlit("\n");
    let i = t1.len() as int;
    assert(t1[i - 1] == '\n');
    assert(t2.subrange(i, t2.len() as int) =~= error);
    assert(text[i - 1] == t1[i - 1]);
    assert(text.subrange(i, i + error.len()) =~= error) by {
        assert(text.subrange(i, i + error.len()) =~= t3.subrange(i, i + error.len()));
        assert(t3.subrange(i, i + error.len()) =~= t2.subrange(i, t2.len() as int));
    }
    let k = t2.len() as int;
    assert(t2[k - 1] == '\n');
    assert(t3.subrange(k, t3.len() as int) =~= location);
    assert(text[k - 1] == t2[k - 1]);
    assert(text.subrange(k, k + location.len()) =~= location) by {
        assert(text.subrange(k, k + location.len()) =~= t3.subrange(k, t3.len() as int));
    }
}

/// Each processor's line ends the line.
proof fn lemma_cpu_line_ends_line(c: CpuInfo)
    ensures
        cpu_line(c).len() > 0,
        cpu_line(c).last() == '\n',
{
    reveal_strlit("%\n");
    let head = c.name@ + ": "@ + c.frequency@ + "Hz ("@ + c.brand@ + ") "@ + c.usage@;
    assert(cpu_line(c) == head + "%\n"@);
    assert(cpu_line(c)[cpu_line(c).len() - 1] == "%\n"@[1]);
}

/// The processor lines of processors `a` followed by processors `b` are the lines of `a`
/// followed by the lines of `b`; the lines of one processor are its line. So the crash file
/// lists every processor, each on its own line, in order.
pub proof fn lemma_cpu_lines_append(a: Seq<CpuInfo>, b: Seq<CpuInfo>)
    ensures
        cpu_lines(a + b) == cpu_lines(a) + cpu_lines(b),
    decreases b.len(),
{
    if b.len() == 0 {
        assert(a + b =~= a);
        assert(cpu_lines(a) + cpu_lines(b) =~= cpu_lines(a));
    } else {
        assert((a + b).drop_last() =~= a + b.drop_last());
        assert((a + b).last() == b.last());
        lemma_cpu_lines_append(a, b.drop_last());
        assert(cpu_lines(a) + cpu_lines(b) =~= (cpu_lines(a) + cpu_lines(b.drop_last())) + cpu_line(b.last()));
    }
}

/// The processor lines of a single processor are that processor's line.
pub proof fn lemma_cpu_lines_single(c: CpuInfo)
    ensures
        cpu_lines(seq![c]) == cpu_line(c),
{
    assert(seq![c].drop_last() =~= Seq::<CpuInfo>::empty());
    assert(seq![c].last() == c);
    assert(cpu_lines(Seq::<CpuInfo>::empty()) == Seq::<char>::empty());
    assert(Seq::<char>::empty() + cpu_line(c) =~= cpu_line(c));
}

/// The processor lines of some processors end a line, unless there are none.
proof fn lemma_cpu_lines_end_line(cpus: Seq<CpuInfo>)
    requires
        cpus.len() > 0,
    ensures
        cpu_lines(cpus).len() > 0,
        cpu_lines(cpus).last() == '\n',
{
    lemma_cpu_line_ends_line(cpus.last());
    let a = cpu_lines(cpus.drop_last());
    let b = cpu_line(cpus.last());
    assert(cpu_lines(cpus) == a + b);
    assert((a + b)[(a + b).len() - 1] == b[b.len() - 1]);
}

/// The text of a crash file up to and including the `CPU:` line.
spec fn report_head(r: CrashReport) -> Seq<char> {
    let os = match r.os_version {
        Some(v) => v@,
        None => "Unknown"@,
    };
    "--- DungeonRS Crash Report ---\n"@
        + "Please provide the contents of this file when creating a bug report.\n"@ + "\n"@ + "\n"@
        + "Operating System: "@ + os + "\n"@
        + "Memory: "@ + r.used_memory@ + "/"@ + r.total_memory@ + "\n"@
        + "CPU: "@ + r.cpu_count@ + " Cores "@ + r.cpu_brand@ + "\n"@
}

#[verifier::spinoff_prover]
#[verifier::rlimit(50)]
proof fn lemma_report_starts_with_head(r: CrashReport)
    ensures
        report_text(r).len() >= report_head(r).len() + cpu_lines(r.cpus@).len(),
        report_text(r).take((report_head(r).len() + cpu_lines(r.cpus@).len()) as int) == report_head(r) + cpu_lines(r.cpus@),
{
    let t = report_head(r) + cpu_lines(r.cpus@);
    assert(report_text(r).take(t.len() as int) =~= t);
}

/// The crash file names the operating system: it has the whole line `Operating System: <v>`
/// where the system's version `v` is known, and `Operating System: Unknown` where it is not.
#[verifier::spinoff_prover]
#[verifier::rlimit(50)]
pub proof fn lemma_report_names_os(r: CrashReport)
    ensures
        has_line(report_text(r), "Operating System: "@ + match r.os_version {
            Some(v) => v@,
            None => "Unknown"@,
        } + "\n"@),
{
    let os = match r.os_version {
        Some(v) => v@,
        None => "Unknown"@,
    };
    let a = "--- DungeonRS Crash Report ---\n"@
        + "Please provide the contents of this file when creating a bug report.\n"@ + "\n"@ + "\n"@;
    let t = a + "Operating System: "@ + os + "\n"@;
    let line = "Operating System: "@ + os + "\n"@;
    let text = report_text(r);
    let head = report_head(r);
    lemma_report_starts_with_head(r);
    assert(head.take(t.len() as int) =~= t);
    let full = head + cpu_lines(r.cpus@);
    assert(text.take(full.len() as int) == full);
    reveal_strlit("\n");
    let i = a.len() as int;
    assert(a[i - 1] == '\n');
    assert(t[i - 1] == a[i - 1]);
    assert(head[i - 1] == t[i - 1]);
    assert(full[i - 1] == head[i - 1]);
    assert(text[i - 1] == full[i - 1]);
    assert(t.subrange(i, t.len() as int) =~= line);
    assert(text.subrange(i, i + line.len()) =~= line) by {
        assert(head.subrange(i, i + line.len()) =~= t.subrange(i, t.len() as int));
        assert(full.subrange(i, i + line.len()) =~= head.subrange(i, i + line.len()));
        assert(text.subrange(i, i + line.len()) =~= full.subrange(i, i + line.len()));
    }
}

/// The crash file lists the processor `i` on a line of its own: its name, frequency, brand
/// and usage.
#[verifier::spinoff_prover]
#[verifier::rlimit(50)]
pub proof fn lemma_report_lists_cpu(r: CrashReport, i: int)
    requires
        0 <= i < r.cpus@.len(),
    ensures
        has_line(report_text(r), cpu_line(r.cpus@[i])),
{
    let cpus = r.cpus@;
    let pre = report_head(r);
    let a = cpu_lines(cpus.take(i));
    let b = cpu_line(cpus[i]);
    let c = cpu_lines(cpus.skip(i + 1));
    assert(cpus =~= cpus.take(i) + (seq![cpus[i]] + cpus.skip(i + 1)));
    lemma_cpu_lines_append(cpus.take(i), seq![cpus[i]] + cpus.skip(i + 1));
    lemma_cpu_lines_append(seq![cpus[i]], cpus.skip(i + 1));
    lemma_cpu_lines_single(cpus[i]);
    assert(cpu_lines(cpus) == a + (b + c));
    lemma_report_starts_with_head(r);
    let text = report_text(r);
    let t = pre + cpu_lines(cpus);
    assert(text.take(t.len() as int) == t);
    let p = (pre.len() + a.len()) as int;
    let q = p + b.len();
    assert(t.subrange(p, q) =~= b);
    assert(text.subrange(p, q) =~= b) by {
        assert(text.subrange(p, q) =~= t.subrange(p, q));
    }
    reveal_strlit("\n");
    if i == 0 {
        assert(a =~= Seq::<char>::empty()) by {
            assert(cpus.take(0) =~= Seq::<CpuInfo>::empty());
        }
        assert(pre[pre.len() - 1] == '\n');
        assert(text[p - 1] == t[p - 1]);
    } else {
        lemma_cpu_lines_end_line(cpus.take(i));
        assert(t[p - 1] == a[a.len() - 1]);
        assert(text[p - 1] == t[p - 1]);
    }
}

/// The crash file lists every processor, each on a line of its own.
pub proof fn lemma_report_lists_cpus(r: CrashReport)
    ensures
        forall|i: int| 0 <= i < r.cpus@.len() ==> has_line(report_text(r), #[trigger] cpu_line(r.cpus@[i])),
{
    assert forall|i: int| 0 <= i < r.cpus@.len() implies has_line(report_text(r), #[trigger] cpu_line(r.cpus@[i])) by {
        lemma_report_lists_cpu(r, i);
    }
}

} // verus!
