use std::time::Duration;

use speedtest::dashboard::{is_compact, Dashboard, Figures, Rate, HISTORY_LEN};

fn nanos(d: Duration) -> u64 {
    d.as_nanos() as u64
}

// The caller's side of writing rates out: bytes per second as an `f64`, as
// the measurement defines it, then `{:.2}` / `{:.3}`.
fn per_second(rate: Rate) -> f64 {
    rate.bytes as f64 / Duration::from_nanos(rate.nanos).as_secs_f64()
}

fn figures(d: &Dashboard) -> Figures {
    let speed = per_second(d.speed());
    Figures {
        speed_mb: format!("{:.2}", speed / 1_000_000.0),
        speed_mbps: format!("{:.2}", speed * 8.0 / 1_000_000.0),
        average_mb: format!("{:.2}", per_second(d.average()) / 1_000_000.0),
        peak_mb: format!("{:.2}", per_second(d.peak()) / 1_000_000.0),
        total_gb: format!("{:.3}", d.total() as f64 / 1_000_000_000.0),
    }
}

#[test]
fn rates_history_and_layouts() {
    let mut dashboard = Dashboard::new("国内", 4);
    dashboard.sample(4_000_000, nanos(Duration::from_secs(2)), nanos(Duration::from_secs(2)));
    assert_eq!(per_second(dashboard.speed()), 2_000_000.0);
    assert_eq!(per_second(dashboard.average()), 2_000_000.0);
    assert!(dashboard.cli_line(&figures(&dashboard)).contains("16.00 Mbps"));
    dashboard.sample(4_000_000, nanos(Duration::from_secs(3)), nanos(Duration::from_secs(1)));
    assert_eq!(per_second(dashboard.speed()), 0.0);
    assert_eq!(per_second(dashboard.peak()), 2_000_000.0);
    for second in 4..150 {
        dashboard.sample(4_000_000, nanos(Duration::from_secs(second)), nanos(Duration::from_secs(1)));
    }
    assert_eq!(dashboard.history().len(), HISTORY_LEN);
    for (width, height) in [(100u16, 30u16), (60, 22), (40, 15), (10, 4), (1, 1), (0, 0)] {
        let compact = is_compact(width, height);
        assert_eq!(compact, width < 60 || height < 22);
        if compact {
            assert!(dashboard.compact_text(&figures(&dashboard)).contains("SpeedTest"));
        }
    }
}

#[test]
fn cli_line_reads_every_field() {
    let mut dashboard = Dashboard::new("海外", 8);
    dashboard.set_address("https://example.com/file".to_string());
    dashboard.set_errors(3);
    dashboard.sample(12_345_678, 5_000_000_000, 1_000_000_000);
    assert_eq!(
        dashboard.cli_line(&figures(&dashboard)),
        "当前下载速度: 12.35 MB/s | 98.77 Mbps | 平均: 2.47 MB/s | 峰值: 12.35 MB/s | 已下载: 0.012 GB | 用时: 5s | 并发上限: 8 | 重试: 3 | 分组: 海外 | 地址: https://example.com/file"
    );
}

#[test]
fn figures_are_placed_as_given() {
    let dashboard = Dashboard::new("国内", 2);
    let given = Figures {
        speed_mb: "A".to_string(),
        speed_mbps: "B".to_string(),
        average_mb: "C".to_string(),
        peak_mb: "D".to_string(),
        total_gb: "E".to_string(),
    };
    assert_eq!(
        dashboard.cli_line(&given),
        "当前下载速度: A MB/s | B Mbps | 平均: C MB/s | 峰值: D MB/s | 已下载: E GB | 用时: 0s | 并发上限: 2 | 重试: 0 | 分组: 国内 | 地址: "
    );
    assert_eq!(dashboard.transfer_text(&given), "已下载  E GB    运行时间  00:00:00");
}

#[test]
fn a_short_interval_counts_as_one_millisecond() {
    let mut dashboard = Dashboard::new("国内", 1);
    dashboard.sample(1_000, 0, 0);
    // 1000 bytes over 1 ms is 1 MB/s
    assert_eq!(dashboard.speed(), Rate { bytes: 1_000, nanos: 1_000_000 });
    assert_eq!(figures(&dashboard).speed_mb, "1.00");
    assert_eq!(figures(&dashboard).average_mb, "1.00");
}

#[test]
fn a_shrinking_total_reads_as_no_speed() {
    let mut dashboard = Dashboard::new("国内", 1);
    dashboard.sample(5_000, 1_000_000_000, 1_000_000_000);
    dashboard.sample(4_000, 2_000_000_000, 1_000_000_000);
    assert_eq!(dashboard.speed().bytes, 0);
    assert_eq!(dashboard.total(), 4_000);
    assert_eq!(dashboard.peak().bytes, 5_000);
}

#[test]
fn history_keeps_the_latest_samples() {
    let mut dashboard = Dashboard::new("国内", 1);
    for i in 1..=(HISTORY_LEN as u64 + 5) {
        dashboard.sample(i * 1_000, i * 1_000_000_000, 1_000_000_000);
    }
    let history: Vec<Rate> = dashboard.history().iter().copied().collect();
    assert_eq!(history.len(), HISTORY_LEN);
    // every sample added 1000 bytes, so all kept samples are equal
    assert!(history.iter().all(|r| *r == Rate { bytes: 1_000, nanos: 1_000_000_000 }));
    let mut varied = Dashboard::new("国内", 1);
    let mut total = 0u64;
    for i in 1..=(HISTORY_LEN as u64 + 3) {
        total += i;
        varied.sample(total, i * 1_000_000_000, 1_000_000_000);
    }
    let kept: Vec<u64> = varied.history().iter().map(|r| r.bytes).collect();
    let expected: Vec<u64> = (4..=(HISTORY_LEN as u64 + 3)).collect();
    assert_eq!(kept, expected);
}

#[test]
fn peak_is_the_fastest_sample() {
    let mut dashboard = Dashboard::new("国内", 1);
    let totals = [3_000u64, 10_000, 11_000, 30_000, 31_000];
    for (i, total) in totals.iter().enumerate() {
        let t = (i as u64 + 1) * 1_000_000_000;
        dashboard.sample(*total, t, 1_000_000_000);
    }
    assert_eq!(dashboard.peak(), Rate { bytes: 19_000, nanos: 1_000_000_000 });
    // the same speed over a different window is not faster
    let same = Rate { bytes: 38_000, nanos: 2_000_000_000 };
    assert!(!same.is_faster_than(&dashboard.peak()));
    assert!(!dashboard.peak().is_faster_than(&same));
}

#[test]
fn status_follows_the_run() {
    let mut dashboard = Dashboard::new("国内", 2);
    assert_eq!(dashboard.status(), "正在寻找最佳下载地址...");
    dashboard.set_address("https://a".to_string());
    assert_eq!(dashboard.status(), "正在连接，等待首个采样...");
    dashboard.set_errors(1);
    assert_eq!(dashboard.status(), "连接异常，正在重试...");
    dashboard.sample(10, 1_000_000_000, 1_000_000_000);
    assert_eq!(dashboard.status(), "持续测速中");
    dashboard.sample(10, 2_000_000_000, 1_000_000_000);
    assert_eq!(dashboard.status(), "连接异常，正在重试...");
}

#[test]
fn texts_for_the_panels() {
    let mut dashboard = Dashboard::new("国内 + 海外", 16);
    dashboard.set_address("https://a/b".to_string());
    dashboard.sample(2_500_000_000, 3_725_000_000_000, 1_000_000_000);
    assert_eq!(dashboard.transfer_text(&figures(&dashboard)), "已下载  2.500 GB    运行时间  01:02:05");
    assert_eq!(dashboard.limits_text(), "    并发上限  16    重试  0");
    assert_eq!(
        dashboard.compact_text(&figures(&dashboard)),
        "SpeedTest / 国内 + 海外\n持续测速中\n\n2500.00 MB/s  /  20000.00 Mbps\n平均 0.67  峰值 2500.00 MB/s\n已下载 2.500 GB / 3725s\n并发上限 16 / 重试 0\nhttps://a/b\n\nQ / Esc / Ctrl+C 退出"
    );
    assert_eq!(dashboard.group(), "国内 + 海外");
}

#[test]
fn small_terminals_get_the_text_layout() {
    assert!(!is_compact(100, 30));
    assert!(!is_compact(60, 22));
    assert!(is_compact(59, 30));
    assert!(is_compact(100, 21));
    assert!(is_compact(0, 0));
}
