//! Which servers are measured against, and which of them is used.
//!
//! Without an address of the user's own, every candidate of the chosen
//! groups is probed with one request and the one that answered a success
//! soonest is used; this picks by response time, not by throughput. With an
//! address of the user's own, only that address is used and nothing else is
//! tried when it fails.
use vstd::prelude::*;

use crate::cli::{Args, ArgsModel};
use crate::status::{is_success_status, spec_is_success};
use crate::transfer::{counts_as_retry, Failure};

verus! {

/// The download that is added to every group.
pub const APPLE_DOWNLOAD_ADDRESS: &'static str = "https://mensura.cdn-apple.com/api/v1/gm/large";

/// Where upload traffic goes: it takes a POST body of any length.
pub const APPLE_UPLOAD_ADDRESS: &'static str = "https://mensura.cdn-apple.com/api/v1/gm/slurp";

/// The latency recorded for a server that did not answer with a success.
pub const UNREACHABLE: u128 = 0xffff_ffff_ffff_ffff_ffff_ffff_ffff_ffffu128;

/// Seconds a probe request may take.
pub const PROBE_TIMEOUT_SECS: u64 = 5;

/// Seconds a connection may take to open.
pub const CONNECT_TIMEOUT_SECS: u64 = 5;

/// Seconds a read may wait for data.
pub const READ_TIMEOUT_SECS: u64 = 15;

/// Seconds to wait after a failed transfer before the next attempt.
pub const RETRY_DELAY_SECS: u64 = 1;

/// What is reported when no candidate answered.
pub const NO_SERVER_MESSAGE: &'static str = "没有可用的测速地址，请使用 --url 指定地址";

/// The mainland group.
pub open spec fn mainland_spec() -> Seq<Seq<char>> {
    seq![
        "https://download.alicdn.com/wireless/taobao4android/latest/taobao4android_703304.apk"@,
        "https://dldir1.qq.com/qqfile/qq/TIM3.5.0/TIM3.5.0.22143.exe"@,
        "https://res.app.coc.10086.cn/downfile/apk/CM10086_android_V11.4.0_20241023213523371.apk"@,
        "https://bce.bdstatic.com/bce-app/android/4.9.14-release.apk"@,
        "https://cloud.video.taobao.com/play/u/null/p/1/e/6/t/1/d/ud/329682839911.mp4"@,
        "https://e890f2fd0e182ec52eb7bae54f5fd897.b.hon.cc.cdnhwc8.com:32590/appdl-1-drcn.dbankcdn.com/dl/appdl/application/apk/a2/a2088eec037441b89156fe405d41c761/PC661608e54be346009a87ff4923a609e5.2409091528.exe"@,
        "https://ctyun-portal.gdoss.xstore.ctyun.cn/download/ctyun.apk"@,
        "https://dl.hdslb.com/mobile/fixed/bili_win/bili_win-install.exe"@,
        "https://www.douyin.com/download/pc/obj/douyin-pc-web/douyin-pc-client/7044145585217083655/releases/12270856/5.3.1/win32-ia32/douyin-downloader-v5.3.1-win32-ia32-douyincold.exe"@,
    ]
}

/// The overseas group. The Cloudflare endpoint refuses requests of 100 MB
/// or more, hence the size just below.
pub open spec fn overseas_spec() -> Seq<Seq<char>> {
    seq![
        "https://speed.cloudflare.com/__down?bytes=99999999"@,
        "https://proof.ovh.net/files/100Mb.dat"@,
        "https://speedtest.london.linode.com/100MB-london.bin"@,
        "https://speedtest.singapore.linode.com/100MB-singapore.bin"@,
        "https://speedtest.tokyo2.linode.com/100MB-tokyo2.bin"@,
        "https://speedtest.newark.linode.com/100MB-newark.bin"@,
        "https://speedtest.fremont.linode.com/100MB-fremont.bin"@,
        "https://speedtest.dallas.linode.com/100MB-dallas.bin"@,
    ]
}

pub open spec fn strings_view(v: Seq<String>) -> Seq<Seq<char>> {
    v.map_values(|s: String| s@)
}

fn push_str(v: &mut Vec<String>, s: &str)
    ensures
        strings_view(final(v)@) == strings_view(old(v)@).push(s@),
{
    v.push(s.to_owned());
    assert(strings_view(final(v)@) =~= strings_view(old(v)@).push(s@));
}

/// The mainland group, in order.
pub fn mainland_addresses() -> (v: Vec<String>)
    ensures
        strings_view(v@) == mainland_spec(),
{
    let mut v: Vec<String> = Vec::new();
    assert(strings_view(v@) =~= Seq::<Seq<char>>::empty());
    push_str(&mut v, "https://download.alicdn.com/wireless/taobao4android/latest/taobao4android_703304.apk");
    push_str(&mut v, "https://dldir1.qq.com/qqfile/qq/TIM3.5.0/TIM3.5.0.22143.exe");
    push_str(&mut v, "https://res.app.coc.10086.cn/downfile/apk/CM10086_android_V11.4.0_20241023213523371.apk");
    push_str(&mut v, "https://bce.bdstatic.com/bce-app/android/4.9.14-release.apk");
    push_str(&mut v, "https://cloud.video.taobao.com/play/u/null/p/1/e/6/t/1/d/ud/329682839911.mp4");
    push_str(&mut v, "https://e890f2fd0e182ec52eb7bae54f5fd897.b.hon.cc.cdnhwc8.com:32590/appdl-1-drcn.dbankcdn.com/dl/appdl/application/apk/a2/a2088eec037441b89156fe405d41c761/PC661608e54be346009a87ff4923a609e5.2409091528.exe");
    push_str(&mut v, "https://ctyun-portal.gdoss.xstore.ctyun.cn/download/ctyun.apk");
    push_str(&mut v, "https://dl.hdslb.com/mobile/fixed/bili_win/bili_win-install.exe");
    push_str(&mut v, "https://www.douyin.com/download/pc/obj/douyin-pc-web/douyin-pc-client/7044145585217083655/releases/12270856/5.3.1/win32-ia32/douyin-downloader-v5.3.1-win32-ia32-douyincold.exe");
    assert(strings_view(v@) =~= mainland_spec());
    v
}

/// The overseas group, in order.
pub fn overseas_addresses() -> (v: Vec<String>)
    ensures
        strings_view(v@) == overseas_spec(),
{
    let mut v: Vec<String> = Vec::new();
    assert(strings_view(v@) =~= Seq::<Seq<char>>::empty());
    push_str(&mut v, "https://speed.cloudflare.com/__down?bytes=99999999");
    push_str(&mut v, "https://proof.ovh.net/files/100Mb.dat");
    push_str(&mut v, "https://speedtest.london.linode.com/100MB-london.bin");
    push_str(&mut v, "https://speedtest.singapore.linode.com/100MB-singapore.bin");
    push_str(&mut v, "https://speedtest.tokyo2.linode.com/100MB-tokyo2.bin");
    push_str(&mut v, "https://speedtest.newark.linode.com/100MB-newark.bin");
    push_str(&mut v, "https://speedtest.fremont.linode.com/100MB-fremont.bin");
    push_str(&mut v, "https://speedtest.dallas.linode.com/100MB-dallas.bin");
    assert(strings_view(v@) =~= overseas_spec());
    v
}

/// The two server groups, address by address. The Cloudflare request asks
/// for 99,999,999 bytes, just under the 100 MB that the endpoint refuses
/// with `403`.
pub proof fn lemma_server_groups()
    ensures
        mainland_spec().len() == 9,
        overseas_spec().len() == 8,
        mainland_spec() == seq![
            "https://download.alicdn.com/wireless/taobao4android/latest/taobao4android_703304.apk"@,
            "https://dldir1.qq.com/qqfile/qq/TIM3.5.0/TIM3.5.0.22143.exe"@,
            "https://res.app.coc.10086.cn/downfile/apk/CM10086_android_V11.4.0_20241023213523371.apk"@,
            "https://bce.bdstatic.com/bce-app/android/4.9.14-release.apk"@,
            "https://cloud.video.taobao.com/play/u/null/p/1/e/6/t/1/d/ud/329682839911.mp4"@,
            "https://e890f2fd0e182ec52eb7bae54f5fd897.b.hon.cc.cdnhwc8.com:32590/appdl-1-drcn.dbankcdn.com/dl/appdl/application/apk/a2/a2088eec037441b89156fe405d41c761/PC661608e54be346009a87ff4923a609e5.2409091528.exe"@,
            "https://ctyun-portal.gdoss.xstore.ctyun.cn/download/ctyun.apk"@,
            "https://dl.hdslb.com/mobile/fixed/bili_win/bili_win-install.exe"@,
            "https://www.douyin.com/download/pc/obj/douyin-pc-web/douyin-pc-client/7044145585217083655/releases/12270856/5.3.1/win32-ia32/douyin-downloader-v5.3.1-win32-ia32-douyincold.exe"@,
        ],
        overseas_spec() == seq![
            "https://speed.cloudflare.com/__down?bytes="@ + "99999999"@,
            "https://proof.ovh.net/files/100Mb.dat"@,
            "https://speedtest.london.linode.com/100MB-london.bin"@,
            "https://speedtest.singapore.linode.com/100MB-singapore.bin"@,
            "https://speedtest.tokyo2.linode.com/100MB-tokyo2.bin"@,
            "https://speedtest.newark.linode.com/100MB-newark.bin"@,
            "https://speedtest.fremont.linode.com/100MB-fremont.bin"@,
            "https://speedtest.dallas.linode.com/100MB-dallas.bin"@,
        ],
{
    reveal_strlit("https://speed.cloudflare.com/__down?bytes=99999999");
    reveal_strlit("https://speed.cloudflare.com/__down?bytes=");
    reveal_strlit("99999999");
    assert("https://speed.cloudflare.com/__down?bytes=99999999"@ =~= "https://speed.cloudflare.com/__down?bytes="@
        + "99999999"@);
}

/// The name of the server group a run uses.
pub open spec fn group_text(a: ArgsModel) -> Seq<char> {
    if a.url.len() > 0 {
        "自定义地址"@
    } else if a.mainland && a.overseas {
        "国内 + 海外"@
    } else if a.overseas {
        "海外"@
    } else {
        "国内"@
    }
}

/// The addresses a run measures against: the user's own alone, or else the
/// mainland group (unless only `--overseas` was asked for), the overseas
/// group when asked for, and the Apple download last.
pub open spec fn candidates_spec(a: ArgsModel) -> Seq<Seq<char>> {
    if a.url.len() > 0 {
        seq![a.url]
    } else {
        (if a.mainland || !a.overseas {
            mainland_spec()
        } else {
            Seq::empty()
        }) + (if a.overseas {
            overseas_spec()
        } else {
            Seq::empty()
        }) + seq![APPLE_DOWNLOAD_ADDRESS@]
    }
}

/// Which groups are measured against: an address of one's own is used
/// alone; otherwise the overseas group is a candidate only with
/// `--overseas`, the mainland group is one unless `--overseas` was given
/// without `--mainland`, and the Apple download always closes the list.
/// So `--mainland` alone (or no flag) gives the nine mainland addresses and
/// the Apple download, `--overseas` alone the eight overseas ones and the
/// Apple download, and both flags all eighteen.
pub proof fn lemma_candidate_groups(a: ArgsModel)
    ensures
        a.url.len() > 0 ==> candidates_spec(a) == seq![a.url],
        a.url.len() == 0 && !a.overseas ==> candidates_spec(a) == mainland_spec() + seq![
            APPLE_DOWNLOAD_ADDRESS@,
        ],
        a.url.len() == 0 && !a.overseas ==> candidates_spec(a).len() == 10,
        a.url.len() == 0 && a.overseas && !a.mainland ==> candidates_spec(a) == overseas_spec() + seq![
            APPLE_DOWNLOAD_ADDRESS@,
        ],
        a.url.len() == 0 && a.overseas && !a.mainland ==> candidates_spec(a).len() == 9,
        a.url.len() == 0 && a.overseas && a.mainland ==> candidates_spec(a) == mainland_spec()
            + overseas_spec() + seq![APPLE_DOWNLOAD_ADDRESS@],
        a.url.len() == 0 && a.overseas && a.mainland ==> candidates_spec(a).len() == 18,
        a.url.len() == 0 ==> candidates_spec(a).last() == APPLE_DOWNLOAD_ADDRESS@,
{
    lemma_server_groups();
    if a.url.len() == 0 {
        if !a.overseas {
            assert(candidates_spec(a) =~= mainland_spec() + seq![APPLE_DOWNLOAD_ADDRESS@]);
        } else if !a.mainland {
            assert(candidates_spec(a) =~= overseas_spec() + seq![APPLE_DOWNLOAD_ADDRESS@]);
        }
    }
}

/// The name of the server group that `args` selects.
pub fn group_label(args: &Args) -> (g: &'static str)
    ensures
        g@ == group_text(args@),
{
    if !args.url.as_str().is_empty() {
        "自定义地址"
    } else if args.mainland && args.overseas {
        "国内 + 海外"
    } else if args.overseas {
        "海外"
    } else {
        "国内"
    }
}

/// How a run measures.
pub struct MeasurePlan {
    /// The candidate download addresses.
    pub addresses: Vec<String>,
    /// Whether the candidates are probed to choose among them, at the start
    /// and again after each failed download.
    pub probe: bool,
    /// How many upload workers run.
    pub upload_workers: usize,
    /// How many download workers run.
    pub download_workers: usize,
}

impl MeasurePlan {
    /// The plan for `args`. Uploads run only with the built-in servers: the
    /// upload endpoint belongs to them, not to an address of the user's own.
    pub fn for_args(args: &Args) -> (p: MeasurePlan)
        ensures
            strings_view(p.addresses@) == candidates_spec(args@),
            p.probe == (args@.url.len() == 0),
            p.upload_workers == (if args@.url.len() == 0 {
                args.concurrency
            } else {
                0
            }),
            p.download_workers == args.concurrency,
    {
        if !args.url.as_str().is_empty() {
            let mut addresses: Vec<String> = Vec::new();
            addresses.push(args.url.clone());
            assert(strings_view(addresses@) =~= seq![args.url@]);
            return MeasurePlan {
                addresses,
                probe: false,
                upload_workers: 0,
                download_workers: args.concurrency,
            };
        }
        let mut addresses: Vec<String> = Vec::new();
        if args.mainland || !args.overseas {
            addresses = mainland_addresses();
        }
        if args.overseas {
            let mut more = overseas_addresses();
            let ghost a0 = addresses@;
            let ghost m0 = more@;
            addresses.append(&mut more);
            assert(strings_view(addresses@) =~= strings_view(a0) + strings_view(m0));
        } else {
            assert(strings_view(addresses@) =~= strings_view(addresses@) + Seq::<Seq<char>>::empty());
        }
        push_str(&mut addresses, APPLE_DOWNLOAD_ADDRESS);
        assert(strings_view(addresses@) =~= candidates_spec(args@));
        MeasurePlan {
            addresses,
            probe: true,
            upload_workers: args.concurrency,
            download_workers: args.concurrency,
        }
    }
}

/// What follows the end of a download worker.
#[derive(Debug, Clone, Copy, PartialEq, Eq, Structural)]
pub struct Recovery {
    /// Whether the retry count grows by one.
    pub count_retry: bool,
    /// Seconds to wait before going on.
    pub delay_secs: u64,
    /// Whether the candidates are probed again before the replacement starts.
    pub reprobe: bool,
    /// How many workers are started in its place.
    pub replacements: usize,
}

impl MeasurePlan {
    /// The rule for a download worker that ended (its request failed, its
    /// answer was an HTTP error, or its body ended empty or failed): count
    /// one retry, wait [`RETRY_DELAY_SECS`], probe the built-in servers again
    /// when they are in use, and start exactly one worker in its place, so
    /// that the number of download workers stays the same.
    pub fn after_download_ended(&self) -> (r: Recovery)
        ensures
            r.count_retry,
            r.delay_secs == RETRY_DELAY_SECS,
            r.reprobe == self.probe,
            r.replacements == 1,
    {
        Recovery {
            count_retry: counts_as_retry(Failure::DownloadEnded),
            delay_secs: RETRY_DELAY_SECS,
            reprobe: self.probe,
            replacements: 1,
        }
    }
}

/// The answer of one probe: the candidate and how long it took to answer a
/// success, [`UNREACHABLE`] when it did not.
pub struct Probe {
    pub address: String,
    pub latency_ms: u128,
}

/// The latency a probe records for an answer with `status` (`None`: no
/// answer) after `elapsed_ms`.
pub open spec fn spec_probe_latency(status: Option<u16>, elapsed_ms: u128) -> u128 {
    match status {
        Some(code) => if spec_is_success(code) {
            elapsed_ms
        } else {
            UNREACHABLE
        },
        None => UNREACHABLE,
    }
}

/// The latency a probe records: the time taken when the server answered
/// with a success status, [`UNREACHABLE`] when it answered otherwise or not
/// at all (`status` is `None`).
pub fn probe_latency(status: Option<u16>, elapsed_ms: u128) -> (l: u128)
    ensures
        l == spec_probe_latency(status, elapsed_ms),
{
    match status {
        Some(code) => if is_success_status(code) {
            elapsed_ms
        } else {
            UNREACHABLE
        },
        None => UNREACHABLE,
    }
}

pub open spec fn reachable(p: Seq<Probe>, i: int) -> bool {
    p[i].latency_ms != UNREACHABLE
}

/// Only a server that answered with a success can be chosen: a probe's
/// latency marks it reachable exactly when the answer was a success (for any
/// time short of the largest value).
pub proof fn lemma_only_successful_answers_count(status: Option<u16>, elapsed_ms: u128)
    requires
        elapsed_ms != UNREACHABLE,
    ensures
        (spec_probe_latency(status, elapsed_ms) != UNREACHABLE) <==> (status matches Some(code)
            && spec_is_success(code)),
{
}

/// Which probe wins: among those that answered, the one with the least
/// latency, the earliest of them on a tie; `None` when none answered.
pub fn select_best(probes: &Vec<Probe>) -> (best: Option<usize>)
    ensures
        best is None <==> (forall|j: int| 0 <= j < probes@.len() ==> !reachable(probes@, j)),
        best matches Some(i) ==> {
            &&& i < probes@.len()
            &&& reachable(probes@, i as int)
            &&& forall|j: int|
                0 <= j < probes@.len() && reachable(probes@, j) ==> probes@[i as int].latency_ms
                    <= #[trigger] probes@[j].latency_ms
            &&& forall|j: int| 0 <= j < i ==> probes@[i as int].latency_ms < #[trigger] probes@[j].latency_ms
        },
{
    let mut best: Option<usize> = None;
    let mut k: usize = 0;
    while k < probes.len()
        invariant
            k <= probes@.len(),
            best is None <==> (forall|j: int| 0 <= j < k ==> !reachable(probes@, j)),
            best matches Some(i) ==> {
                &&& i < k
                &&& reachable(probes@, i as int)
                &&& forall|j: int|
                    0 <= j < k && reachable(probes@, j) ==> probes@[i as int].latency_ms
                        <= #[trigger] probes@[j].latency_ms
                &&& forall|j: int| 0 <= j < i ==> probes@[i as int].latency_ms < #[trigger] probes@[j].latency_ms
            },
        decreases probes@.len() - k,
    {
        let latency = probes[k].latency_ms;
        assert(reachable(probes@, k as int) == (latency != UNREACHABLE));
        if latency != UNREACHABLE {
            match best {
                None => {
                    assert forall|j: int| 0 <= j < k implies latency < #[trigger] probes@[j].latency_ms by {
                        assert(!reachable(probes@, j));
                    }
                    best = Some(k);
                },
                Some(i) => {
                    if latency < probes[i].latency_ms {
                        assert forall|j: int| 0 <= j < k implies latency < #[trigger] probes@[j].latency_ms by {
                            if reachable(probes@, j) {
                                assert(probes@[i as int].latency_ms <= probes@[j].latency_ms);
                            }
                        }
                        best = Some(k);
                    }
                },
            }
        }
        k += 1;
    }
    best
}

} // verus!
