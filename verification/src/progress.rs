//! Progress displays: they count the bytes processed, decide when to redraw,
//! and lay out the progress line. Measuring speed and time left works on
//! floating point and stays with the program, which passes the results in.
use vstd::prelude::*;
use crate::sys::{clock_now, elapsed_millis};
use crate::text::{decimal, push_decimal};

verus! {

/// What `bytesize::ByteSize(bytes)` displays (`to_string`).
pub uninterp spec fn byte_size_text(bytes: u64) -> Seq<char>;

/// Calls `<bytesize::ByteSize as Display>::fmt` (through `to_string`).
/// Claimed: the text depends on the number alone, and below 1024 it is the
/// number followed by ` B` (the default IEC display prints a value below one
/// KiB as plain bytes).
#[verifier::external_body]
fn byte_size(bytes: u64) -> (r: String)
    ensures
        r@ == byte_size_text(bytes),
        bytes < 1024 ==> r@ == decimal(bytes as nat) + seq![' ', 'B'],
{
    bytesize::ByteSize(bytes).to_string()
}

/// A byte count as the tool shows it (`bytesize::ByteSize`'s display).
pub fn display_bytes(bytes: u64) -> (r: String)
    ensures
        r@ == byte_size_text(bytes),
        bytes < 1024 ==> r@ == decimal(bytes as nat) + seq![' ', 'B'],
{
    byte_size(bytes)
}

/// A display of progress through a known amount of bytes.
pub trait ProgressDisplay {
    /// The bytes counted so far.
    spec fn processed(&self) -> nat;

    /// Counts `bytes_processed` more bytes; says whether the display is due
    /// to be redrawn.
    fn update(&mut self, bytes_processed: u64) -> (redraw: bool)
        requires
            old(self).processed() + bytes_processed <= u64::MAX,
        ensures
            final(self).processed() == old(self).processed() + bytes_processed,
    ;
}

/// The counters of a progress display.
pub ghost struct ProgressView {
    /// The bytes the operation will process.
    pub total: nat,
    /// The bytes counted so far.
    pub current: nat,
}

/// `{:02}`: at least two digits, zero-padded.
pub open spec fn two_digits(n: nat) -> Seq<char> {
    if n < 10 {
        seq!['0'] + decimal(n)
    } else {
        decimal(n)
    }
}

/// `n` copies of `c`.
pub open spec fn repeated(c: char, n: nat) -> Seq<char> {
    Seq::new(n, |i: int| c)
}

/// The bar of a progress bar 50 characters wide: `=` for the share done,
/// blanks for the rest.
pub open spec fn bar_text(percent: nat) -> Seq<char> {
    let filled = percent * 50 / 100;
    repeated('=', filled) + repeated(' ', (50 - filled) as nat)
}

/// The estimate of time left, as minutes and seconds; nothing when none is
/// left.
pub open spec fn eta_text(remaining_secs: nat) -> Seq<char> {
    if remaining_secs > 0 {
        " ETA: "@ + two_digits(remaining_secs / 60) + ":"@ + two_digits(remaining_secs % 60)
    } else {
        Seq::empty()
    }
}

/// The sum of a run of byte counts.
pub open spec fn total_of(counts: Seq<u64>) -> nat
    decreases counts.len(),
{
    if counts.len() == 0 {
        0
    } else {
        total_of(counts.drop_last()) + counts.last() as nat
    }
}

/// A display's count is the sum of its updates: for the views of a display
/// from its creation (`views[0]`, count 0) through updates by `counts[0]`,
/// `counts[1]`, ... (each adding its count and keeping the total, as
/// `update` ensures), the last view counts the sum and keeps the total.
pub proof fn lemma_count_is_sum_of_updates(views: Seq<ProgressView>, counts: Seq<u64>)
    requires
        views.len() == counts.len() + 1,
        views[0].current == 0,
        forall|i: int|
            0 <= i < counts.len() ==> #[trigger] views[i + 1] == (ProgressView {
                current: views[i].current + counts[i] as nat,
                ..views[i]
            }),
    ensures
        views.last().current == total_of(counts),
        views.last().total == views[0].total,
    decreases counts.len(),
{
    if counts.len() > 0 {
        let k = counts.len() - 1;
        let shorter = views.subrange(0, views.len() - 1);
        assert forall|i: int| 0 <= i < counts.drop_last().len() implies #[trigger] shorter[i + 1]
            == (ProgressView { current: shorter[i].current + counts.drop_last()[i] as nat, ..shorter[i] }) by {
            assert(views[i + 1] == (ProgressView { current: views[i].current + counts[i] as nat, ..views[i] }));
        }
        lemma_count_is_sum_of_updates(shorter, counts.drop_last());
        assert(views[k + 1] == (ProgressView { current: views[k].current + counts[k] as nat, ..views[k] }));
    }
}

/// A bar is always 50 characters wide, and the share drawn as `=` never
/// exceeds the share done.
pub proof fn lemma_bar_width(percent: nat)
    requires
        percent <= 101,
    ensures
        bar_text(percent).len() == 50,
        percent * 50 / 100 <= 50,
        (percent * 50 / 100) * 100 <= percent * 50,
{
    assert(percent * 50 <= 5050) by (nonlinear_arith)
        requires
            percent <= 101,
    ;
    assert((percent * 50 / 100) * 100 <= percent * 50) by (nonlinear_arith)
        requires
            percent <= 101,
    ;
}

/// A bar for `percent` percent (up to 101) is 50 characters of `=` and
/// blanks: position `i` is `=` exactly when `i` is below `percent * 50 / 100`,
/// so the bar holds that many `=`, all at the front.
pub proof fn lemma_bar_fill(percent: nat)
    requires
        percent <= 101,
    ensures
        bar_text(percent).len() == 50,
        forall|i: int|
            0 <= i < 50 ==> (#[trigger] bar_text(percent)[i] == '=' <==> i < percent * 50 / 100),
        forall|i: int|
            0 <= i < 50 ==> (#[trigger] bar_text(percent)[i] == '=' || bar_text(percent)[i] == ' '),
{
    lemma_bar_width(percent);
    let f = percent * 50 / 100;
    let b = bar_text(percent);
    assert forall|i: int| 0 <= i < 50 implies (#[trigger] b[i] == '=' <==> i < f) && (b[i] == '='
        || b[i] == ' ') by {
        if i < f {
            assert(b[i] == repeated('=', f)[i]);
        } else {
            assert(b[i] == repeated(' ', (50 - f) as nat)[i - f]);
        }
    }
}

/// A bar never shrinks as the share done grows: every `=` of the bar for
/// `p` percent is also a `=` of the bar for any larger `q` (up to 101).
pub proof fn lemma_bar_monotone(p: nat, q: nat)
    requires
        p <= q <= 101,
    ensures
        forall|i: int| 0 <= i < 50 && #[trigger] bar_text(p)[i] == '=' ==> bar_text(q)[i] == '=',
{
    lemma_bar_fill(p);
    lemma_bar_fill(q);
    assert(p * 50 / 100 <= q * 50 / 100) by (nonlinear_arith)
        requires
            p <= q,
    ;
}

fn push_two_digits(out: &mut String, n: u64)
    ensures
        final(out)@ == old(out)@ + two_digits(n as nat),
{
    if n < 10 {
        proof {
            reveal_strlit("0");
        }
        out.append("0");
        push_decimal(out, n);
        assert(final(out)@ =~= old(out)@ + two_digits(n as nat));
    } else {
        push_decimal(out, n);
    }
}

fn push_repeated(out: &mut String, unit: &str, c: char, n: u64)
    requires
        unit@ == seq![c],
    ensures
        final(out)@ == old(out)@ + repeated(c, n as nat),
{
    let mut i: u64 = 0;
    while i < n
        invariant
            unit@ == seq![c],
            i <= n,
            out@ == old(out)@ + repeated(c, i as nat),
        decreases n - i,
    {
        out.append(unit);
        i += 1;
        assert(out@ =~= old(out)@ + repeated(c, i as nat));
    }
}

/// The bar of a progress bar for `percent` percent done.
pub fn bar(percent: u8) -> (r: String)
    requires
        percent <= 101,
    ensures
        r@ == bar_text(percent as nat),
{
    let filled: u64 = (percent as u64) * 50 / 100;
    let mut s = String::new();
    proof {
        reveal_strlit("=");
        reveal_strlit(" ");
        assert("="@ =~= seq!['=']);
        assert(" "@ =~= seq![' ']);
    }
    push_repeated(&mut s, "=", '=', filled);
    push_repeated(&mut s, " ", ' ', 50 - filled);
    assert(s@ =~= bar_text(percent as nat));
    s
}

/// The estimate of time left, for `remaining_secs` seconds.
pub fn eta(remaining_secs: u64) -> (r: String)
    ensures
        r@ == eta_text(remaining_secs as nat),
{
    let mut s = String::new();
    if remaining_secs > 0 {
        s.append(" ETA: ");
        push_two_digits(&mut s, remaining_secs / 60);
        s.append(":");
        push_two_digits(&mut s, remaining_secs % 60);
    }
    assert(s@ =~= eta_text(remaining_secs as nat));
    s
}

/// Whether a redraw is due: at least `interval_ms` milliseconds have passed
/// since the last one.
pub fn update_due(elapsed_ms: u128, interval_ms: u64) -> (r: bool)
    ensures
        r == (elapsed_ms >= interval_ms),
{
    elapsed_ms >= interval_ms as u128
}

/// A progress line redrawn at most every 100 ms.
pub struct SimpleProgress {
    total: u64,
    current: u64,
    start_time: std::time::Instant,
    last_update: std::time::Instant,
    update_interval_ms: u64,
}

/// The line of a simple progress display.
pub open spec fn simple_line(view: ProgressView, percent: nat, speed: u64) -> Seq<char> {
    "\rProgress: "@ + decimal(percent) + "% | "@ + byte_size_text(view.current as u64) + "/"@
        + byte_size_text(view.total as u64) + " | "@ + byte_size_text(speed) + "/s"@
}

impl View for SimpleProgress {
    type V = ProgressView;

    closed spec fn view(&self) -> ProgressView {
        ProgressView { total: self.total as nat, current: self.current as nat }
    }
}

impl SimpleProgress {
    /// A display of progress through `total` bytes, started now.
    pub fn new(total: u64) -> (r: Self)
        ensures
            r@ == (ProgressView { total: total as nat, current: 0 }),
            r.interval_ms() == 100,
    {
        SimpleProgress {
            total,
            current: 0,
            start_time: clock_now(),
            last_update: clock_now(),
            update_interval_ms: 100,
        }
    }

    /// The least time between redraws.
    pub closed spec fn interval_ms(&self) -> nat {
        self.update_interval_ms as nat
    }

    /// The bytes counted so far.
    pub fn current(&self) -> (r: u64)
        ensures
            r == self@.current,
    {
        self.current
    }

    /// The bytes the operation will process.
    pub fn total(&self) -> (r: u64)
        ensures
            r == self@.total,
    {
        self.total
    }

    /// The clock reading taken when the display was created.
    pub closed spec fn started_at(&self) -> std::time::Instant {
        self.start_time
    }

    /// When the display was created.
    pub fn start_time(&self) -> (r: &std::time::Instant)
        ensures
            *r == self.started_at(),
    {
        &self.start_time
    }

    /// Whether a redraw is due when `elapsed_ms` milliseconds have passed
    /// since the last one: at least the least time between redraws.
    pub fn redraw_due(&self, elapsed_ms: u128) -> (r: bool)
        ensures
            r == (elapsed_ms >= self.interval_ms()),
    {
        update_due(elapsed_ms, self.update_interval_ms)
    }

    /// Whether the least time between redraws has passed since the last one,
    /// by the clock: `redraw_due` of the time the clock says has passed.
    pub fn should_update(&self) -> bool {
        let elapsed = elapsed_millis(&self.last_update);
        self.redraw_due(elapsed)
    }

    /// Counts `bytes_processed` more bytes when `elapsed_ms` milliseconds have
    /// passed since the last redraw; says whether a redraw is due.
    pub fn update_with_elapsed(&mut self, bytes_processed: u64, elapsed_ms: u128) -> (redraw: bool)
        requires
            old(self)@.current + bytes_processed <= u64::MAX,
        ensures
            final(self)@ == (ProgressView {
                current: old(self)@.current + bytes_processed as nat,
                ..old(self)@
            }),
            final(self).interval_ms() == old(self).interval_ms(),
            final(self).started_at() == old(self).started_at(),
            redraw == (elapsed_ms >= old(self).interval_ms()),
    {
        self.current = self.current + bytes_processed;
        self.redraw_due(elapsed_ms)
    }

    /// Notes that the display was just redrawn.
    pub fn mark_redrawn(&mut self)
        ensures
            final(self)@ == old(self)@,
            final(self).interval_ms() == old(self).interval_ms(),
            final(self).started_at() == old(self).started_at(),
    {
        self.last_update = clock_now();
    }

    /// The percentage the line shows, given the share done as computed:
    /// that share, or 0 for a display of zero bytes.
    pub fn shown_percent(&self, computed: u8) -> (r: u8)
        ensures
            r == if self@.total > 0 {
                computed
            } else {
                0
            },
    {
        if self.total > 0 {
            computed
        } else {
            0
        }
    }

    /// The progress line for `percent` percent done at `speed` bytes per
    /// second.
    pub fn render(&self, percent: u8, speed: u64) -> (r: String)
        ensures
            r@ == simple_line(self@, percent as nat, speed),
    {
        let mut s = String::from_str("\rProgress: ");
        push_decimal(&mut s, percent as u64);
        s.append("% | ");
        let c = byte_size(self.current);
        s.append(c.as_str());
        s.append("/");
        let t = byte_size(self.total);
        s.append(t.as_str());
        s.append(" | ");
        let v = byte_size(speed);
        s.append(v.as_str());
        s.append("/s");
        s
    }
}

impl ProgressDisplay for SimpleProgress {
    open spec fn processed(&self) -> nat {
        self@.current
    }

    /// Counts the bytes; a redraw is due when the least time between redraws
    /// has passed by the clock (`update_with_elapsed` with the clock's
    /// reading).
    fn update(&mut self, bytes_processed: u64) -> (redraw: bool)
        ensures
            final(self)@ == (ProgressView {
                current: old(self)@.current + bytes_processed as nat,
                ..old(self)@
            }),
            final(self).interval_ms() == old(self).interval_ms(),
            final(self).started_at() == old(self).started_at(),
    {
        let elapsed = elapsed_millis(&self.last_update);
        self.update_with_elapsed(bytes_processed, elapsed)
    }
}

/// A progress bar with a message, redrawn on every update.
pub struct ProgressBar {
    total: u64,
    current: u64,
    start_time: std::time::Instant,
    message: String,
    show_bytes: bool,
}

/// The settings of a progress bar.
pub ghost struct BarView {
    pub total: nat,
    pub current: nat,
    pub message: Seq<char>,
    pub show_bytes: bool,
}

/// The line of a progress bar.
pub open spec fn bar_line(view: BarView, percent: nat, speed: u64, remaining_secs: nat) -> Seq<
    char,
> {
    "\r"@ + view.message + " ["@ + bar_text(percent) + "] "@ + decimal(percent) + "%"@ + (
    if view.show_bytes {
        " "@ + byte_size_text(view.current as u64) + "/"@ + byte_size_text(view.total as u64)
            + " ("@ + byte_size_text(speed) + "/s)"@
    } else {
        Seq::empty()
    }) + eta_text(remaining_secs)
}

impl View for ProgressBar {
    type V = BarView;

    closed spec fn view(&self) -> BarView {
        BarView {
            total: self.total as nat,
            current: self.current as nat,
            message: self.message@,
            show_bytes: self.show_bytes,
        }
    }
}

impl ProgressBar {
    /// A bar for `total` bytes labelled `message`, showing byte counts,
    /// started now.
    pub fn new(total: u64, message: &str) -> (r: Self)
        ensures
            r@ == (BarView { total: total as nat, current: 0, message: message@, show_bytes: true }),
    {
        ProgressBar {
            total,
            current: 0,
            start_time: clock_now(),
            message: String::from_str(message),
            show_bytes: true,
        }
    }

    /// The same bar, showing byte counts or not.
    pub fn with_bytes_display(self, show: bool) -> (r: Self)
        ensures
            r@ == (BarView { show_bytes: show, ..self@ }),
            r.started_at() == self.started_at(),
    {
        let mut b = self;
        b.show_bytes = show;
        b
    }

    /// The bytes counted so far.
    pub fn get_current(&self) -> (r: u64)
        ensures
            r == self@.current,
    {
        self.current
    }

    /// The bytes the operation will process.
    pub fn total(&self) -> (r: u64)
        ensures
            r == self@.total,
    {
        self.total
    }

    /// The clock reading taken when the bar was created.
    pub closed spec fn started_at(&self) -> std::time::Instant {
        self.start_time
    }

    /// When the bar was created.
    pub fn start_time(&self) -> (r: &std::time::Instant)
        ensures
            *r == self.started_at(),
    {
        &self.start_time
    }

    /// The bar's line for `percent` percent done, at `speed` bytes per second
    /// with `remaining_secs` seconds left; nothing for a bar of zero bytes.
    pub fn render(&self, percent: u8, speed: u64, remaining_secs: u64) -> (r: Option<String>)
        requires
            percent <= 101,
        ensures
            self@.total == 0 ==> r is None,
            self@.total > 0 ==> r is Some && r->0@ == bar_line(
                self@,
                percent as nat,
                speed,
                remaining_secs as nat,
            ),
    {
        if self.total == 0 {
            return None;
        }
        let mut s = String::from_str("\r");
        s.append(self.message.as_str());
        s.append(" [");
        let b = bar(percent);
        s.append(b.as_str());
        s.append("] ");
        push_decimal(&mut s, percent as u64);
        s.append("%");
        let ghost before_bytes = s@;
        if self.show_bytes {
            s.append(" ");
            let c = byte_size(self.current);
            s.append(c.as_str());
            s.append("/");
            let t = byte_size(self.total);
            s.append(t.as_str());
            s.append(" (");
            let v = byte_size(speed);
            s.append(v.as_str());
            s.append("/s)");
        }
        let e = eta(remaining_secs);
        s.append(e.as_str());
        assert(s@ =~= bar_line(self@, percent as nat, speed, remaining_secs as nat));
        Some(s)
    }
}

impl ProgressDisplay for ProgressBar {
    open spec fn processed(&self) -> nat {
        self@.current
    }

    /// Counts the bytes; the bar is redrawn on every update.
    fn update(&mut self, bytes_processed: u64) -> (redraw: bool)
        ensures
            final(self)@ == (BarView { current: old(self)@.current + bytes_processed as nat, ..old(self)@ }),
            final(self).started_at() == old(self).started_at(),
            redraw,
    {
        self.current = self.current + bytes_processed;
        true
    }
}

} // verus!
