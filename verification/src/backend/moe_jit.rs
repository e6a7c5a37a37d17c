//! The just-in-time loader of expert weights.

use crate::backend::gpu::CompiledFeatures;
use crate::backend_api::BackendKind;
use crate::text::{
    decimal, lemma_begins_with_itself, lemma_says_at_the_end, lemma_says_at_the_start,
    push_decimal_u64, says,
};
use std::sync::Arc;
use vstd::prelude::*;

verus! {

/// What the loader has done so far.
#[derive(Debug, Clone, Copy, PartialEq, Eq, Structural)]
pub struct MoeJitStats {
    pub requests: u64,
    pub requested_experts: u64,
    pub requested_bytes: u64,
    pub copied_bytes: u64,
    pub resident_bytes: u64,
    pub cuda_failures: u64,
    pub cache_lookups: u64,
    pub cache_hits: u64,
    pub cache_misses: u64,
    pub cache_evictions: u64,
    pub resident_upload_bytes: u64,
    pub temp_upload_bytes: u64,
}

/// The default loader for `backend`. Only CUDA has one: it is made when it is first
/// asked for, and shared from then on.
pub fn default_moe_jit_loader<T, M: FnOnce() -> T>(
    features: CompiledFeatures,
    shared: &mut Option<Arc<T>>,
    backend: Option<BackendKind>,
    make: M,
) -> (loader: Option<Arc<T>>)
    requires
        call_requires(make, ()),
    ensures
        if features.cuda && backend == Some(BackendKind::Cuda) {
            &&& loader is Some
            &&& *final(shared) == loader
            &&& match *old(shared) {
                Some(kept) => loader == Some(kept),
                None => call_ensures(make, (), *loader->0),
            }
        } else {
            &&& loader is None
            &&& *final(shared) == *old(shared)
        },
{
    match backend {
        Some(BackendKind::Cuda) => if features.cuda {
            if shared.is_none() {
                *shared = Some(Arc::new(make()));
            }
            match &*shared {
                Some(loader) => Some(loader.clone()),
                None => None,
            }
        } else {
            None
        },
        _ => None,
    }
}

/// The line that reports `stats`, with the hit rate in percent already written
/// out to one decimal.
pub open spec fn report_line(stats: MoeJitStats, hit_rate: Seq<char>) -> Seq<char> {
    "moe_jit_cuda requests="@ + decimal(stats.requests as nat) + " experts="@ + decimal(
        stats.requested_experts as nat,
    ) + " requested_bytes="@ + decimal(stats.requested_bytes as nat) + " copied_bytes="@ + decimal(
        stats.copied_bytes as nat,
    ) + " resident_bytes="@ + decimal(stats.resident_bytes as nat) + " failures="@ + decimal(
        stats.cuda_failures as nat,
    ) + " cache_lookups="@ + decimal(stats.cache_lookups as nat) + " cache_hits="@ + decimal(
        stats.cache_hits as nat,
    ) + " cache_misses="@ + decimal(stats.cache_misses as nat) + " cache_hit_rate="@ + hit_rate
        + "% cache_evictions="@ + decimal(stats.cache_evictions as nat)
        + " resident_upload_bytes="@ + decimal(stats.resident_upload_bytes as nat)
        + " temp_upload_bytes="@ + decimal(stats.temp_upload_bytes as nat)
}

fn push_count(line: &mut String, label: &str, count: u64)
    ensures
        final(line)@ == old(line)@ + label@ + decimal(count as nat),
{
    line.append(label);
    push_decimal_u64(line, count);
}

/// Whether `rate` is the hit rate of `stats` in percent, written out to one decimal by
/// `percent`; without lookups it is zero.
pub open spec fn is_hit_rate<F: FnOnce(u64, u64) -> String>(
    stats: MoeJitStats,
    percent: F,
    rate: Seq<char>,
) -> bool {
    if stats.cache_lookups == 0 {
        rate == "0.0"@
    } else {
        exists|written: String| #[trigger]
            call_ensures(percent, (stats.cache_hits, stats.cache_lookups), written) && written@
                == rate
    }
}

/// Reports what the default loader has done; nothing, while there is no loader.
pub fn moe_jit_report<T, S: FnOnce(&T) -> MoeJitStats, F: FnOnce(u64, u64) -> String>(
    shared: &Option<Arc<T>>,
    stats: S,
    percent: F,
) -> (report: Option<String>)
    requires
        forall|loader: &T| call_requires(stats, (loader,)),
        forall|hits: u64, lookups: u64| lookups > 0 ==> call_requires(percent, (hits, lookups)),
    ensures
        match (*shared, report) {
            (Some(loader), Some(report)) => exists|read: MoeJitStats, rate: Seq<char>|
                {
                    &&& #[trigger] call_ensures(stats, (&*loader,), read)
                    &&& is_hit_rate(read, percent, rate)
                    &&& report@ == #[trigger] report_line(read, rate)
                },
            (None, None) => true,
            _ => false,
        },
{
    let loader = match shared {
        Some(loader) => loader,
        None => return None,
    };
    let read: MoeJitStats = stats(&**loader);
    let rate = if read.cache_lookups == 0 {
        String::from_str("0.0")
    } else {
        percent(read.cache_hits, read.cache_lookups)
    };
    let mut line = String::from_str("");
    proof {
        reveal_strlit("");
        assert(line@ + "moe_jit_cuda requests="@ =~= "moe_jit_cuda requests="@);
    }
    push_count(&mut line, "moe_jit_cuda requests=", read.requests);
    push_count(&mut line, " experts=", read.requested_experts);
    push_count(&mut line, " requested_bytes=", read.requested_bytes);
    push_count(&mut line, " copied_bytes=", read.copied_bytes);
    push_count(&mut line, " resident_bytes=", read.resident_bytes);
    push_count(&mut line, " failures=", read.cuda_failures);
    push_count(&mut line, " cache_lookups=", read.cache_lookups);
    push_count(&mut line, " cache_hits=", read.cache_hits);
    push_count(&mut line, " cache_misses=", read.cache_misses);
    line.append(" cache_hit_rate=");
    line.append(rate.as_str());
    push_count(&mut line, "% cache_evictions=", read.cache_evictions);
    push_count(&mut line, " resident_upload_bytes=", read.resident_upload_bytes);
    push_count(&mut line, " temp_upload_bytes=", read.temp_upload_bytes);
    assert(line@ == report_line(read, rate@));
    Some(line)
}

/// The report says each count, and the hit rate in percent, behind its name.
pub proof fn law_reports_say_each_count(stats: MoeJitStats, hit_rate: Seq<char>)
    ensures
        says(
            report_line(stats, hit_rate),
            "moe_jit_cuda requests="@,
            decimal(stats.requests as nat),
        ),
        says(report_line(stats, hit_rate), " experts="@, decimal(stats.requested_experts as nat)),
        says(
            report_line(stats, hit_rate),
            " requested_bytes="@,
            decimal(stats.requested_bytes as nat),
        ),
        says(report_line(stats, hit_rate), " copied_bytes="@, decimal(stats.copied_bytes as nat)),
        says(
            report_line(stats, hit_rate),
            " resident_bytes="@,
            decimal(stats.resident_bytes as nat),
        ),
        says(report_line(stats, hit_rate), " failures="@, decimal(stats.cuda_failures as nat)),
        says(report_line(stats, hit_rate), " cache_lookups="@, decimal(stats.cache_lookups as nat)),
        says(report_line(stats, hit_rate), " cache_hits="@, decimal(stats.cache_hits as nat)),
        says(report_line(stats, hit_rate), " cache_misses="@, decimal(stats.cache_misses as nat)),
        says(report_line(stats, hit_rate), " cache_hit_rate="@, hit_rate),
        says(
            report_line(stats, hit_rate),
            "% cache_evictions="@,
            decimal(stats.cache_evictions as nat),
        ),
        says(
            report_line(stats, hit_rate),
            " resident_upload_bytes="@,
            decimal(stats.resident_upload_bytes as nat),
        ),
        says(
            report_line(stats, hit_rate),
            " temp_upload_bytes="@,
            decimal(stats.temp_upload_bytes as nat),
        ),
{
    let line1 = "moe_jit_cuda requests="@ + decimal(stats.requests as nat);
    let line2 = line1 + " experts="@ + decimal(stats.requested_experts as nat);
    let line3 = line2 + " requested_bytes="@ + decimal(stats.requested_bytes as nat);
    let line4 = line3 + " copied_bytes="@ + decimal(stats.copied_bytes as nat);
    let line5 = line4 + " resident_bytes="@ + decimal(stats.resident_bytes as nat);
    let line6 = line5 + " failures="@ + decimal(stats.cuda_failures as nat);
    let line7 = line6 + " cache_lookups="@ + decimal(stats.cache_lookups as nat);
    let line8 = line7 + " cache_hits="@ + decimal(stats.cache_hits as nat);
    let line9 = line8 + " cache_misses="@ + decimal(stats.cache_misses as nat);
    let line10 = line9 + " cache_hit_rate="@ + hit_rate;
    let line11 = line10 + "% cache_evictions="@ + decimal(stats.cache_evictions as nat);
    let line12 = line11 + " resident_upload_bytes="@ + decimal(stats.resident_upload_bytes as nat);
    let line13 = line12 + " temp_upload_bytes="@ + decimal(stats.temp_upload_bytes as nat);
    let line = report_line(stats, hit_rate);
    lemma_begins_with_itself(line);
    lemma_says_at_the_end(
        line,
        line12,
        " temp_upload_bytes="@,
        decimal(stats.temp_upload_bytes as nat),
    );
    lemma_says_at_the_end(
        line,
        line11,
        " resident_upload_bytes="@,
        decimal(stats.resident_upload_bytes as nat),
    );
    lemma_says_at_the_end(
        line,
        line10,
        "% cache_evictions="@,
        decimal(stats.cache_evictions as nat),
    );
    lemma_says_at_the_end(line, line9, " cache_hit_rate="@, hit_rate);
    lemma_says_at_the_end(line, line8, " cache_misses="@, decimal(stats.cache_misses as nat));
    lemma_says_at_the_end(line, line7, " cache_hits="@, decimal(stats.cache_hits as nat));
    lemma_says_at_the_end(line, line6, " cache_lookups="@, decimal(stats.cache_lookups as nat));
    lemma_says_at_the_end(line, line5, " failures="@, decimal(stats.cuda_failures as nat));
    lemma_says_at_the_end(line, line4, " resident_bytes="@, decimal(stats.resident_bytes as nat));
    lemma_says_at_the_end(line, line3, " copied_bytes="@, decimal(stats.copied_bytes as nat));
    lemma_says_at_the_end(line, line2, " requested_bytes="@, decimal(stats.requested_bytes as nat));
    lemma_says_at_the_end(line, line1, " experts="@, decimal(stats.requested_experts as nat));
    lemma_says_at_the_start(line, "moe_jit_cuda requests="@, decimal(stats.requests as nat));
}

/// The hit rate is the writer's own for the hits among the lookups, and zero without any.
pub proof fn law_the_hit_rate_is_of_hits_among_lookups<F: FnOnce(u64, u64) -> String>(
    stats: MoeJitStats,
    percent: F,
    rate: Seq<char>,
)
    requires
        is_hit_rate(stats, percent, rate),
    ensures
        stats.cache_lookups == 0 ==> rate == "0.0"@,
        stats.cache_lookups > 0 ==> exists|written: String| #[trigger]
            call_ensures(percent, (stats.cache_hits, stats.cache_lookups), written) && written@ == rate,
{
}

} // verus!
