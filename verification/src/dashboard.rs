//! What the dashboard measures and shows.
//!
//! Rates are kept exact: a [`Rate`] is a number of bytes over a time window
//! in nanoseconds. Writing a rate or a byte count out in `MB/s`, `Mbps` or
//! `GB` is floating-point work that the caller does; the texts here take
//! those figures as [`Figures`] and place them among the rest.
use std::collections::VecDeque;

use vstd::prelude::*;
use vstd::string::StringExecFns;

use crate::text::{decimal, push_decimal, push_two_digits, two_digits};

verus! {

/// How many samples the trend chart keeps.
pub const HISTORY_LEN: usize = 120;

/// The shortest window a rate is measured over (one millisecond); a shorter
/// one counts as this long.
pub const MIN_WINDOW_NANOS: u64 = 1_000_000;

pub const NANOS_PER_SEC: u64 = 1_000_000_000;

/// A transfer rate: `bytes` moved in `nanos` nanoseconds.
#[derive(Clone, Copy, Debug, PartialEq, Eq, Structural)]
pub struct Rate {
    pub bytes: u64,
    pub nanos: u64,
}

/// The window a rate is measured over: at least [`MIN_WINDOW_NANOS`].
pub open spec fn window(nanos: u64) -> u64 {
    if nanos < MIN_WINDOW_NANOS {
        MIN_WINDOW_NANOS
    } else {
        nanos
    }
}

/// The rate of `bytes` over `nanos`.
pub open spec fn rate_over(bytes: u64, nanos: u64) -> Rate {
    Rate { bytes, nanos: window(nanos) }
}

/// `a` is no faster than `b`, compared exactly as fractions.
pub open spec fn rate_le(a: Rate, b: Rate) -> bool {
    a.bytes * b.nanos <= b.bytes * a.nanos
}

/// `a` is strictly slower than `b`.
pub open spec fn rate_lt(a: Rate, b: Rate) -> bool {
    a.bytes * b.nanos < b.bytes * a.nanos
}

/// The product of two `u64` values fits in a `u128`.
proof fn lemma_u64_product(a: u64, b: u64)
    ensures
        a * b <= u128::MAX,
{
    assert(a * b <= u128::MAX) by (nonlinear_arith)
        requires
            a <= u64::MAX,
            b <= u64::MAX,
            0 <= a,
            0 <= b,
    {
        assert(a * b <= u64::MAX * u64::MAX);
    }
}

impl Rate {
    /// No bytes over the shortest window.
    pub fn zero() -> (r: Rate)
        ensures
            r == rate_over(0, 0),
    {
        Rate { bytes: 0, nanos: MIN_WINDOW_NANOS }
    }

    /// The rate of `bytes` over `nanos`, the window being at least
    /// [`MIN_WINDOW_NANOS`].
    pub fn over(bytes: u64, nanos: u64) -> (r: Rate)
        ensures
            r == rate_over(bytes, nanos),
    {
        Rate {
            bytes,
            nanos: if nanos < MIN_WINDOW_NANOS {
                MIN_WINDOW_NANOS
            } else {
                nanos
            },
        }
    }

    /// Whether `self` is strictly faster than `other`.
    pub fn is_faster_than(&self, other: &Rate) -> (b: bool)
        ensures
            b == rate_lt(*other, *self),
    {
        proof {
            lemma_u64_product(other.bytes, self.nanos);
            lemma_u64_product(self.bytes, other.nanos);
        }
        let lhs = other.bytes as u128 * self.nanos as u128;
        let rhs = self.bytes as u128 * other.nanos as u128;
        lhs < rhs
    }
}

/// `a ≤ b` and `b ≤ c` give `a ≤ c` for rates over positive windows.
pub proof fn lemma_rate_le_trans(a: Rate, b: Rate, c: Rate)
    requires
        a.nanos > 0,
        b.nanos > 0,
        c.nanos > 0,
        rate_le(a, b),
        rate_le(b, c),
    ensures
        rate_le(a, c),
{
    let (ab, an, bb, bn, cb, cn) = (
        a.bytes as int,
        a.nanos as int,
        b.bytes as int,
        b.nanos as int,
        c.bytes as int,
        c.nanos as int,
    );
    assert(ab * cn <= cb * an) by (nonlinear_arith)
        requires
            ab * bn <= bb * an,
            bb * cn <= cb * bn,
            an > 0,
            bn > 0,
            cn > 0,
            ab >= 0,
            bb >= 0,
            cb >= 0,
    {
        assert(ab * bn * cn <= bb * an * cn);
        assert(bb * cn * an <= cb * bn * an);
        assert(ab * cn * bn <= cb * an * bn);
    }
}

/// The trend chart's samples after one more: the oldest is dropped once
/// [`HISTORY_LEN`] are kept.
pub open spec fn push_window(h: Seq<Rate>, r: Rate) -> Seq<Rate> {
    if h.len() >= HISTORY_LEN {
        h.drop_first().push(r)
    } else {
        h.push(r)
    }
}

/// The last `n` elements of `s` (all of it when it is shorter).
pub open spec fn last_n<A>(s: Seq<A>, n: nat) -> Seq<A> {
    if s.len() <= n {
        s
    } else {
        s.subrange(s.len() - n, s.len() as int)
    }
}

/// The trend chart holds the most recent samples: if it held the last
/// [`HISTORY_LEN`] of a run of samples, then after one more it holds the last
/// [`HISTORY_LEN`] of the longer run.
pub proof fn lemma_history_keeps_latest(h: Seq<Rate>, all: Seq<Rate>, r: Rate)
    requires
        h == last_n(all, HISTORY_LEN as nat),
    ensures
        push_window(h, r) == last_n(all.push(r), HISTORY_LEN as nat),
{
    let n = HISTORY_LEN as int;
    if all.len() < n {
        assert(push_window(h, r) =~= all.push(r));
    } else if all.len() == n {
        assert(push_window(h, r) =~= all.push(r).subrange(all.len() + 1 - n, all.len() + 1 as int));
    } else {
        assert(push_window(h, r) =~= all.push(r).subrange(all.len() + 1 - n, all.len() + 1 as int));
    }
}

/// The peak after a run of speeds, starting from `p`: each speed that is
/// strictly faster than the peak so far becomes the peak.
pub open spec fn peak_after(p: Rate, speeds: Seq<Rate>) -> Rate
    decreases speeds.len(),
{
    if speeds.len() == 0 {
        p
    } else {
        let q = peak_after(p, speeds.drop_last());
        if rate_lt(q, speeds.last()) {
            speeds.last()
        } else {
            q
        }
    }
}

/// The peak is the fastest speed seen: after any run of samples it is no
/// slower than the starting peak or any speed of the run, and it is one of
/// them.
pub proof fn lemma_peak_is_fastest(p: Rate, speeds: Seq<Rate>)
    requires
        p.nanos > 0,
        forall|i: int| 0 <= i < speeds.len() ==> (#[trigger] speeds[i]).nanos > 0,
    ensures
        rate_le(p, peak_after(p, speeds)),
        forall|i: int| 0 <= i < speeds.len() ==> rate_le(#[trigger] speeds[i], peak_after(p, speeds)),
        peak_after(p, speeds) == p || speeds.contains(peak_after(p, speeds)),
    decreases speeds.len(),
{
    if speeds.len() > 0 {
        let prefix = speeds.drop_last();
        lemma_peak_is_fastest(p, prefix);
        let q = peak_after(p, prefix);
        let s = speeds.last();
        let r = peak_after(p, speeds);
        assert(q.nanos > 0) by {
            if q != p {
                let k = choose|k: int| 0 <= k < prefix.len() && prefix[k] == q;
                assert(speeds[k] == q);
            }
        }
        assert(s == speeds[speeds.len() - 1]);
        assert(rate_le(q, r) && rate_le(s, r));
        lemma_rate_le_trans(p, q, r);
        assert forall|i: int| 0 <= i < speeds.len() implies rate_le(#[trigger] speeds[i], r) by {
            if i < speeds.len() - 1 {
                assert(speeds[i] == prefix[i]);
                lemma_rate_le_trans(speeds[i], q, r);
            }
        }
        if r != p && r != s {
            let k = choose|k: int| 0 <= k < prefix.len() && prefix[k] == r;
            assert(speeds[k] == r);
        }
        if r == s {
            assert(speeds[speeds.len() - 1] == r);
        }
    }
}

/// The narrowest terminal (in columns) that gets the panel layout.
pub const PANEL_MIN_WIDTH: u16 = 60;

/// The lowest terminal (in rows) that gets the panel layout.
pub const PANEL_MIN_HEIGHT: u16 = 22;

/// Whether a terminal of this size shows the dashboard as plain text
/// ([`Dashboard::compact_text`]) instead of panels and a chart.
pub fn is_compact(width: u16, height: u16) -> (compact: bool)
    ensures
        compact == (width < PANEL_MIN_WIDTH || height < PANEL_MIN_HEIGHT),
{
    width < PANEL_MIN_WIDTH || height < PANEL_MIN_HEIGHT
}

/// The measurements written out by the caller, with floating point: the
/// speed, average and peak in MB/s and the speed in Mbps with two decimals,
/// and the bytes downloaded in GB with three.
pub struct Figures {
    pub speed_mb: String,
    pub speed_mbps: String,
    pub average_mb: String,
    pub peak_mb: String,
    pub total_gb: String,
}

pub struct FiguresView {
    pub speed_mb: Seq<char>,
    pub speed_mbps: Seq<char>,
    pub average_mb: Seq<char>,
    pub peak_mb: Seq<char>,
    pub total_gb: Seq<char>,
}

impl View for Figures {
    type V = FiguresView;

    open spec fn view(&self) -> FiguresView {
        FiguresView {
            speed_mb: self.speed_mb@,
            speed_mbps: self.speed_mbps@,
            average_mb: self.average_mb@,
            peak_mb: self.peak_mb@,
            total_gb: self.total_gb@,
        }
    }
}

/// What a [`Dashboard`] holds.
pub struct DashboardView {
    pub address: Seq<char>,
    pub errors: usize,
    pub group: Seq<char>,
    pub concurrency: usize,
    pub total: u64,
    pub elapsed_nanos: u64,
    pub speed: Rate,
    pub average: Rate,
    pub peak: Rate,
    pub history: Seq<Rate>,
    /// Every speed sampled since the dashboard was made, oldest first.
    pub samples: Seq<Rate>,
}

/// How the measurements hang together: every rate is measured over at least
/// the shortest window, the speed is the last one sampled, the chart holds
/// the last [`HISTORY_LEN`] speeds sampled, and the peak is what the run of
/// speeds makes of the zero rate ([`peak_after`]).
pub open spec fn measurements_wf(speed: Rate, average: Rate, peak: Rate, history: Seq<Rate>, samples: Seq<Rate>) -> bool {
    &&& speed.nanos >= MIN_WINDOW_NANOS
    &&& average.nanos >= MIN_WINDOW_NANOS
    &&& forall|i: int| 0 <= i < samples.len() ==> (#[trigger] samples[i]).nanos >= MIN_WINDOW_NANOS
    &&& speed == (if samples.len() > 0 {
        samples.last()
    } else {
        rate_over(0, 0)
    })
    &&& history == last_n(samples, HISTORY_LEN as nat)
    &&& peak == peak_after(rate_over(0, 0), samples)
}

impl DashboardView {
    /// See [`measurements_wf`].
    pub open spec fn wf(self) -> bool {
        measurements_wf(self.speed, self.average, self.peak, self.history, self.samples)
    }

    /// Whole seconds measured so far.
    pub open spec fn elapsed_secs(self) -> nat {
        (self.elapsed_nanos / NANOS_PER_SEC) as nat
    }

    /// The one-line headline of the dashboard.
    pub open spec fn status_text(self) -> Seq<char> {
        if self.address.len() == 0 {
            "正在寻找最佳下载地址..."@
        } else if self.speed.bytes == 0 && self.errors > 0 {
            "连接异常，正在重试..."@
        } else if self.history.len() == 0 {
            "正在连接，等待首个采样..."@
        } else {
            "持续测速中"@
        }
    }

    /// The line printed once per sample in text mode.
    pub open spec fn cli_line_text(self, f: FiguresView) -> Seq<char> {
        "当前下载速度: "@ + f.speed_mb + " MB/s | "@ + f.speed_mbps + " Mbps | 平均: "@ + f.average_mb
            + " MB/s | 峰值: "@ + f.peak_mb + " MB/s | 已下载: "@ + f.total_gb + " GB | 用时: "@
            + decimal(self.elapsed_secs()) + "s | 并发上限: "@ + decimal(self.concurrency as nat)
            + " | 重试: "@ + decimal(self.errors as nat) + " | 分组: "@ + self.group + " | 地址: "@
            + self.address
    }

    /// The whole dashboard as text, for a small terminal.
    pub open spec fn compact_text(self, f: FiguresView) -> Seq<char> {
        "SpeedTest / "@ + self.group + "\n"@ + self.status_text() + "\n\n"@ + f.speed_mb
            + " MB/s  /  "@ + f.speed_mbps + " Mbps\n平均 "@ + f.average_mb + "  峰值 "@ + f.peak_mb
            + " MB/s\n已下载 "@ + f.total_gb + " GB / "@ + decimal(self.elapsed_secs())
            + "s\n并发上限 "@ + decimal(self.concurrency as nat) + " / 重试 "@ + decimal(
            self.errors as nat,
        ) + "\n"@ + self.address + "\n\nQ / Esc / Ctrl+C 退出"@
    }

    /// The download total and the running time as `HH:MM:SS`.
    pub open spec fn transfer_text(self, f: FiguresView) -> Seq<char> {
        "已下载  "@ + f.total_gb + " GB    运行时间  "@ + two_digits(self.elapsed_secs() / 3600)
            + ":"@ + two_digits((self.elapsed_secs() / 60) % 60) + ":"@ + two_digits(
            self.elapsed_secs() % 60,
        )
    }

    /// The concurrency limit and the retry count, after the group's name.
    pub open spec fn limits_text(self) -> Seq<char> {
        "    并发上限  "@ + decimal(self.concurrency as nat) + "    重试  "@ + decimal(
            self.errors as nat,
        )
    }
}

/// The measured part of a dashboard.
struct Measurements {
    total: u64,
    elapsed_nanos: u64,
    speed: Rate,
    average: Rate,
    peak: Rate,
    history: VecDeque<Rate>,
    samples: Ghost<Seq<Rate>>,
}

impl Measurements {
    #[verifier::type_invariant]
    spec fn inv(self) -> bool {
        measurements_wf(self.speed, self.average, self.peak, self.history@, self.samples@)
    }

    fn new() -> (m: Measurements)
        ensures
            m.total == 0,
            m.elapsed_nanos == 0,
            m.speed == rate_over(0, 0),
            m.average == rate_over(0, 0),
            m.peak == rate_over(0, 0),
            m.history@ == Seq::<Rate>::empty(),
            m.samples@ == Seq::<Rate>::empty(),
    {
        let m = Measurements {
            total: 0,
            elapsed_nanos: 0,
            speed: Rate::zero(),
            average: Rate::zero(),
            peak: Rate::zero(),
            history: VecDeque::with_capacity(HISTORY_LEN),
            samples: Ghost(Seq::empty()),
        };
        assert(m.history@ =~= last_n(Seq::<Rate>::empty(), HISTORY_LEN as nat));
        m
    }
}

/// The measurements of one run and the text shown for them.
pub struct Dashboard {
    address: String,
    errors: usize,
    group: &'static str,
    concurrency: usize,
    m: Measurements,
}

impl View for Dashboard {
    type V = DashboardView;

    closed spec fn view(&self) -> DashboardView {
        DashboardView {
            address: self.address@,
            errors: self.errors,
            group: self.group@,
            concurrency: self.concurrency,
            total: self.m.total,
            elapsed_nanos: self.m.elapsed_nanos,
            speed: self.m.speed,
            average: self.m.average,
            peak: self.m.peak,
            history: self.m.history@,
            samples: self.m.samples@,
        }
    }
}

/// What the chart and the peak are after a run of samples: the chart holds
/// the last [`HISTORY_LEN`] speeds (all of them while there are fewer), and
/// the peak is no slower than zero or any speed sampled and is one of them
/// (zero before the first sample).
pub proof fn lemma_dashboard_laws(v: DashboardView)
    requires
        v.wf(),
    ensures
        v.history == last_n(v.samples, HISTORY_LEN as nat),
        v.history.len() == (if v.samples.len() < HISTORY_LEN {
            v.samples.len()
        } else {
            HISTORY_LEN as nat
        }),
        v.history.len() <= HISTORY_LEN,
        rate_le(rate_over(0, 0), v.peak),
        forall|i: int| 0 <= i < v.samples.len() ==> rate_le(#[trigger] v.samples[i], v.peak),
        v.peak == rate_over(0, 0) || v.samples.contains(v.peak),
{
    assert forall|i: int| 0 <= i < v.samples.len() implies (#[trigger] v.samples[i]).nanos > 0 by {}
    lemma_peak_is_fastest(rate_over(0, 0), v.samples);
}

/// The headline follows the run: with no address yet it says that one is
/// being looked for; a failed download shows the retry notice only while
/// the speed is zero; without any failed download it says that the first
/// sample is awaited until one is taken, and that measuring goes on after.
pub proof fn lemma_status_headline(v: DashboardView)
    requires
        v.wf(),
    ensures
        v.address.len() == 0 ==> v.status_text() == "正在寻找最佳下载地址..."@,
        v.address.len() > 0 && v.errors == 0 && v.samples.len() == 0 ==> v.status_text()
            == "正在连接，等待首个采样..."@,
        v.address.len() > 0 && v.errors == 0 && v.samples.len() > 0 ==> v.status_text()
            == "持续测速中"@,
        v.address.len() > 0 && v.errors > 0 && v.speed.bytes == 0 ==> v.status_text()
            == "连接异常，正在重试..."@,
        v.address.len() > 0 && v.speed.bytes > 0 ==> v.status_text() == "持续测速中"@,
{
    lemma_dashboard_laws(v);
    if v.samples.len() > 0 {
        assert(v.history.len() > 0);
    } else {
        assert(v.history.len() == 0);
        assert(v.speed.bytes == 0);
    }
}

impl Dashboard {
    /// A dashboard for the server group `group` and `concurrency` workers,
    /// with nothing measured yet.
    pub fn new(group: &'static str, concurrency: usize) -> (d: Dashboard)
        ensures
            d@.wf(),
            d@.address == Seq::<char>::empty(),
            d@.errors == 0,
            d@.group == group@,
            d@.concurrency == concurrency,
            d@.total == 0,
            d@.elapsed_nanos == 0,
            d@.speed == rate_over(0, 0),
            d@.average == rate_over(0, 0),
            d@.peak == rate_over(0, 0),
            d@.history == Seq::<Rate>::empty(),
            d@.samples == Seq::<Rate>::empty(),
    {
        let m = Measurements::new();
        proof {
            use_type_invariant(&m);
        }
        Dashboard { address: String::new(), errors: 0, group, concurrency, m }
    }

    /// Records a sample: `total` bytes downloaded after `elapsed_nanos` of
    /// measuring, the last sample having been taken `interval_nanos` ago.
    ///
    /// The speed is the growth of the total over the interval (none when the
    /// total did not grow), the average is the total over the elapsed time,
    /// the peak is the fastest speed seen, and the speed joins the chart and
    /// the run of samples.
    pub fn sample(&mut self, total: u64, elapsed_nanos: u64, interval_nanos: u64)
        ensures
            final(self)@.wf(),
            final(self)@.speed == rate_over(
                if total > old(self)@.total {
                    (total - old(self)@.total) as u64
                } else {
                    0
                },
                interval_nanos,
            ),
            final(self)@.samples == old(self)@.samples.push(final(self)@.speed),
            final(self)@.average == rate_over(total, elapsed_nanos),
            final(self)@.peak == (if rate_lt(old(self)@.peak, final(self)@.speed) {
                final(self)@.speed
            } else {
                old(self)@.peak
            }),
            final(self)@.total == total,
            final(self)@.elapsed_nanos == elapsed_nanos,
            final(self)@.history == push_window(old(self)@.history, final(self)@.speed),
            final(self)@.address == old(self)@.address,
            final(self)@.errors == old(self)@.errors,
            final(self)@.group == old(self)@.group,
            final(self)@.concurrency == old(self)@.concurrency,
    {
        proof {
            use_type_invariant(&self.m);
        }
        let mut old_m = Measurements::new();
        std::mem::swap(&mut self.m, &mut old_m);
        proof {
            use_type_invariant(&old_m);
        }
        let Measurements { total: old_total, peak: old_peak, mut history, samples: Ghost(old_samples), .. } = old_m;
        let delta = if total > old_total {
            total - old_total
        } else {
            0
        };
        let speed = Rate::over(delta, interval_nanos);
        let peak = if speed.is_faster_than(&old_peak) {
            speed
        } else {
            old_peak
        };
        let ghost old_history = history@;
        let ghost samples = old_samples.push(speed);
        proof {
            if old_samples.len() > HISTORY_LEN {
                assert(old_history.len() == HISTORY_LEN);
            }
            lemma_history_keeps_latest(old_history, old_samples, speed);
            assert(samples.drop_last() =~= old_samples);
        }
        if history.len() == HISTORY_LEN {
            history.pop_front();
        }
        history.push_back(speed);
        assert(history@ =~= push_window(old_history, speed));
        self.m = Measurements {
            total,
            elapsed_nanos,
            speed,
            average: Rate::over(total, elapsed_nanos),
            peak,
            history,
            samples: Ghost(samples),
        };
        proof {
            use_type_invariant(&self.m);
        }
    }

    /// The speed over the last interval.
    pub fn speed(&self) -> (r: Rate)
        ensures
            r == self@.speed,
    {
        self.m.speed
    }

    /// The average speed since measuring began.
    pub fn average(&self) -> (r: Rate)
        ensures
            r == self@.average,
    {
        self.m.average
    }

    /// The fastest speed seen.
    pub fn peak(&self) -> (r: Rate)
        ensures
            r == self@.peak,
    {
        self.m.peak
    }

    /// Bytes downloaded so far.
    pub fn total(&self) -> (n: u64)
        ensures
            n == self@.total,
    {
        self.m.total
    }

    /// Nanoseconds measured so far.
    pub fn elapsed_nanos(&self) -> (n: u64)
        ensures
            n == self@.elapsed_nanos,
    {
        self.m.elapsed_nanos
    }

    /// The server group's name.
    pub fn group(&self) -> (g: &'static str)
        ensures
            g@ == self@.group,
    {
        self.group
    }

    /// The download address in use; empty until one is chosen.
    pub fn address(&self) -> (a: &String)
        ensures
            a@ == self@.address,
    {
        &self.address
    }

    /// How many failed downloads have been handled.
    pub fn errors(&self) -> (n: usize)
        ensures
            n == self@.errors,
    {
        self.errors
    }

    /// Shows `address` as the download address in use.
    pub fn set_address(&mut self, address: String)
        ensures
            final(self)@ == (DashboardView { address: address@, ..old(self)@ }),
    {
        self.address = address;
    }

    /// Shows `errors` as the number of failed downloads handled.
    pub fn set_errors(&mut self, errors: usize)
        ensures
            final(self)@ == (DashboardView { errors, ..old(self)@ }),
    {
        self.errors = errors;
    }

    /// The samples on the trend chart, oldest first.
    pub fn history(&self) -> (h: &VecDeque<Rate>)
        ensures
            h@ == self@.history,
    {
        &self.m.history
    }

    /// The headline: looking for a server, retrying after an error, waiting
    /// for the first sample, or measuring.
    pub fn status(&self) -> (s: &'static str)
        ensures
            s@ == self@.status_text(),
    {
        if self.address.as_str().is_empty() {
            "正在寻找最佳下载地址..."
        } else if self.m.speed.bytes == 0 && self.errors > 0 {
            "连接异常，正在重试..."
        } else if self.m.history.len() == 0 {
            "正在连接，等待首个采样..."
        } else {
            "持续测速中"
        }
    }

    fn elapsed_secs(&self) -> (n: u64)
        ensures
            n == self@.elapsed_secs(),
    {
        self.m.elapsed_nanos / NANOS_PER_SEC
    }

    /// The line printed once per sample in text mode, with the figures
    /// written out by the caller.
    pub fn cli_line(&self, figures: &Figures) -> (line: String)
        ensures
            line@ == self@.cli_line_text(figures@),
    {
        let mut s = String::new();
        s.append("当前下载速度: ");
        s.append(figures.speed_mb.as_str());
        s.append(" MB/s | ");
        s.append(figures.speed_mbps.as_str());
        s.append(" Mbps | 平均: ");
        s.append(figures.average_mb.as_str());
        s.append(" MB/s | 峰值: ");
        s.append(figures.peak_mb.as_str());
        s.append(" MB/s | 已下载: ");
        s.append(figures.total_gb.as_str());
        s.append(" GB | 用时: ");
        push_decimal(&mut s, self.elapsed_secs() as u128);
        s.append("s | 并发上限: ");
        push_decimal(&mut s, self.concurrency as u128);
        s.append(" | 重试: ");
        push_decimal(&mut s, self.errors as u128);
        s.append(" | 分组: ");
        s.append(self.group);
        s.append(" | 地址: ");
        s.append(self.address.as_str());
        assert(s@ =~= self@.cli_line_text(figures@));
        s
    }

    /// The whole dashboard as text, for a terminal too small for panels.
    pub fn compact_text(&self, figures: &Figures) -> (text: String)
        ensures
            text@ == self@.compact_text(figures@),
    {
        let mut s = String::new();
        s.append("SpeedTest / ");
        s.append(self.group);
        s.append("\n");
        s.append(self.status());
        s.append("\n\n");
        s.append(figures.speed_mb.as_str());
        s.append(" MB/s  /  ");
        s.append(figures.speed_mbps.as_str());
        s.append(" Mbps\n平均 ");
        s.append(figures.average_mb.as_str());
        s.append("  峰值 ");
        s.append(figures.peak_mb.as_str());
        s.append(" MB/s\n已下载 ");
        s.append(figures.total_gb.as_str());
        s.append(" GB / ");
        push_decimal(&mut s, self.elapsed_secs() as u128);
        s.append("s\n并发上限 ");
        push_decimal(&mut s, self.concurrency as u128);
        s.append(" / 重试 ");
        push_decimal(&mut s, self.errors as u128);
        s.append("\n");
        s.append(self.address.as_str());
        s.append("\n\nQ / Esc / Ctrl+C 退出");
        assert(s@ =~= self@.compact_text(figures@));
        s
    }

    /// The download total and the running time as `HH:MM:SS`.
    pub fn transfer_text(&self, figures: &Figures) -> (text: String)
        ensures
            text@ == self@.transfer_text(figures@),
    {
        let secs = self.elapsed_secs();
        let mut s = String::new();
        s.append("已下载  ");
        s.append(figures.total_gb.as_str());
        s.append(" GB    运行时间  ");
        push_two_digits(&mut s, (secs / 3600) as u128);
        s.append(":");
        push_two_digits(&mut s, (secs / 60 % 60) as u128);
        s.append(":");
        push_two_digits(&mut s, (secs % 60) as u128);
        assert(s@ =~= self@.transfer_text(figures@));
        s
    }

    /// The concurrency limit and the retry count.
    pub fn limits_text(&self) -> (text: String)
        ensures
            text@ == self@.limits_text(),
    {
        let mut s = String::new();
        s.append("    并发上限  ");
        push_decimal(&mut s, self.concurrency as u128);
        s.append("    重试  ");
        push_decimal(&mut s, self.errors as u128);
        assert(s@ =~= self@.limits_text());
        s
    }
}

} // verus!
