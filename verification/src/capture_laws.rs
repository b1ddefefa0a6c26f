//! What holds of every capture, whatever the host reports.

use vstd::prelude::*;
use crate::capture::{
    failed, is_window, pending_of, screen_start, sound, stage_after, supports_window_capture,
    target_of, window_start, CaptureResultView, Platform, RawImageView, ReportView, StageView,
    TaskView, SETTLE_DELAY_MS,
};
use crate::codec::{base64_standard, fits_transport, is_whole, png_encoding};
use crate::error::CaptureErrorView;
use crate::geometry::Edges;
use crate::store::{file_name_of, CAPTURES_DIR};

verus! {

/// Where a capture that stood at `stage` stands after the driver reported
/// `reports` in turn. `note` is the encoder's account, should it refuse the
/// pixels; a capture hands pixels to the encoder once at most.
pub open spec fn after_all(stage: StageView, reports: Seq<ReportView>, note: Seq<char>) -> StageView
    decreases reports.len(),
{
    if reports.len() == 0 {
        stage
    } else {
        stage_after(after_all(stage, reports.drop_last(), note), reports.last(), note)
    }
}

/// How far along a stage is: locating, measuring, capturing, preparing the
/// store, writing, recognizing, over.
pub open spec fn rank(stage: StageView) -> nat {
    match stage {
        StageView::Locating { .. } => 0,
        StageView::Measuring { .. } => 1,
        StageView::Capturing { .. } => 2,
        StageView::Preparing { .. } => 3,
        StageView::Writing { .. } => 4,
        StageView::Recognizing { .. } => 5,
        StageView::Done { .. } => 6,
    }
}

/// The reports that answer one lookup each, in order.
pub open spec fn lookups(found: Seq<Option<u64>>) -> Seq<ReportView> {
    Seq::new(found.len(), |i: int| ReportView::Lookup(found[i]))
}

/// A sound capture stays sound, whatever is reported.
pub proof fn soundness_is_kept(stage: StageView, report: ReportView, note: Seq<char>)
    requires
        sound(stage),
    ensures
        sound(stage_after(stage, report, note)),
{
}

/// Both ways to start a capture start it sound.
pub proof fn starts_are_sound(titles: Seq<Seq<char>>, platform: Platform)
    ensures
        sound(screen_start()),
        sound(window_start(titles, platform)),
{
}

/// A capture that starts sound is sound after every report.
pub proof fn soundness_is_kept_throughout(
    stage: StageView,
    reports: Seq<ReportView>,
    note: Seq<char>,
)
    requires
        sound(stage),
    ensures
        sound(after_all(stage, reports, note)),
    decreases reports.len(),
{
    if reports.len() > 0 {
        soundness_is_kept_throughout(stage, reports.drop_last(), note);
        soundness_is_kept(after_all(stage, reports.drop_last(), note), reports.last(), note);
    }
}

/// A capture only moves forward: no report takes it back to an earlier
/// stage.
pub proof fn stages_only_advance(stage: StageView, report: ReportView, note: Seq<char>)
    ensures
        rank(stage) <= rank(stage_after(stage, report, note)),
        stage is Done ==> stage_after(stage, report, note) == stage,
{
}

/// Over a whole run a capture only moves forward, and once over it stays
/// as it ended.
pub proof fn whole_runs_only_advance(
    stage: StageView,
    reports: Seq<ReportView>,
    k: int,
    note: Seq<char>,
)
    requires
        0 <= k <= reports.len(),
    ensures
        rank(after_all(stage, reports.take(k), note)) <= rank(after_all(stage, reports, note)),
        after_all(stage, reports.take(k), note) is Done ==> after_all(stage, reports, note)
            == after_all(stage, reports.take(k), note),
    decreases reports.len() - k,
{
    if k == reports.len() {
        assert(reports.take(k) == reports);
    } else {
        assert(reports.drop_last().take(k) == reports.take(k));
        whole_runs_only_advance(stage, reports.drop_last(), k, note);
        stages_only_advance(after_all(stage, reports.drop_last(), note), reports.last(), note);
    }
}

/// The next report is taken in at the stage that the earlier ones led to.
pub proof fn one_report_more(stage: StageView, reports: Seq<ReportView>, k: int, note: Seq<char>)
    requires
        0 <= k < reports.len(),
    ensures
        after_all(stage, reports.take(k + 1), note) == stage_after(
            after_all(stage, reports.take(k), note),
            reports[k],
            note,
        ),
{
    assert(reports.take(k + 1).drop_last() == reports.take(k));
}

/// While no lookup names a window, the candidates are asked for one by one,
/// in list order.
pub proof fn search_follows_the_list(
    titles: Seq<Seq<char>>,
    platform: Platform,
    found: Seq<Option<u64>>,
    k: int,
    note: Seq<char>,
)
    requires
        supports_window_capture(platform),
        0 <= k <= found.len(),
        k < titles.len(),
        forall|i: int| 0 <= i < k ==> !is_window(#[trigger] found[i]),
    ensures
        after_all(window_start(titles, platform), lookups(found).take(k), note)
            == (StageView::Locating { titles, next: k }),
        pending_of(after_all(window_start(titles, platform), lookups(found).take(k), note))
            == (TaskView::FindWindow { title: titles[k] }),
    decreases k,
{
    let start = window_start(titles, platform);
    if k == 0 {
        assert(lookups(found).take(0).len() == 0);
    } else {
        search_follows_the_list(titles, platform, found, k - 1, note);
        one_report_more(start, lookups(found), k - 1, note);
        assert(!is_window(found[k - 1]));
    }
}

/// The locator settles on the first candidate that matches, never on a
/// later one: where the lookups of the candidates before `titles[m]` name no
/// window and that of `titles[m]` names one, it is that window which is
/// raised and measured, and no later candidate is asked for. The rectangle
/// then measured, unless it encloses nothing, is the region captured.
pub proof fn locate_takes_first_match(
    titles: Seq<Seq<char>>,
    platform: Platform,
    found: Seq<Option<u64>>,
    m: int,
    edges: Edges,
    note: Seq<char>,
)
    requires
        supports_window_capture(platform),
        0 <= m < titles.len(),
        found.len() == m + 1,
        forall|i: int| 0 <= i < m ==> !is_window(#[trigger] found[i]),
        is_window(found[m]),
    ensures
        after_all(window_start(titles, platform), lookups(found), note) == (StageView::Measuring {
            handle: found[m]->0,
        }),
        pending_of(after_all(window_start(titles, platform), lookups(found), note))
            == (TaskView::RaiseAndMeasure { handle: found[m]->0, settle_ms: SETTLE_DELAY_MS }),
        !edges.spec_is_degenerate() ==> after_all(
            window_start(titles, platform),
            lookups(found).push(ReportView::Measured(edges)),
            note,
        ) == (StageView::Capturing { region: Some(edges.spec_bounds()) }),
{
    let start = window_start(titles, platform);
    search_follows_the_list(titles, platform, found, m, note);
    one_report_more(start, lookups(found), m, note);
    assert(lookups(found).take(m + 1) == lookups(found));
    let measured = lookups(found).push(ReportView::Measured(edges));
    assert(measured.drop_last() == lookups(found));
}

/// Where no candidate matches an open window, the capture fails with
/// `WindowNotFound` once every candidate was asked for, and up to then it
/// asks for nothing but lookups: no pixels are read and no file is written.
pub proof fn no_match_fails_before_any_capture(
    titles: Seq<Seq<char>>,
    platform: Platform,
    found: Seq<Option<u64>>,
    k: int,
    note: Seq<char>,
)
    requires
        supports_window_capture(platform),
        titles.len() == found.len(),
        forall|i: int| 0 <= i < found.len() ==> !is_window(#[trigger] found[i]),
        0 <= k <= found.len(),
    ensures
        after_all(window_start(titles, platform), lookups(found), note) == failed(
            CaptureErrorView::WindowNotFound,
        ),
        k < found.len() ==> pending_of(
            after_all(window_start(titles, platform), lookups(found).take(k), note),
        ) == (TaskView::FindWindow { title: titles[k] }),
        k == found.len() ==> pending_of(
            after_all(window_start(titles, platform), lookups(found).take(k), note),
        ) is Finished,
{
    let start = window_start(titles, platform);
    if found.len() == 0 {
        assert(lookups(found).take(k).len() == 0);
    } else {
        let last = found.len() - 1;
        search_follows_the_list(titles, platform, found, last, note);
        one_report_more(start, lookups(found), last, note);
        assert(lookups(found).take(last + 1) == lookups(found));
        if k < found.len() {
            search_follows_the_list(titles, platform, found, k, note);
        } else {
            assert(lookups(found).take(k) == lookups(found));
        }
    }
}

/// As long as no lookup names a window, a window capture stays with its
/// search or has failed, whatever else is reported and in whatever order: it
/// asks for lookups only, reads no pixels and writes no file.
pub proof fn without_a_window_nothing_is_captured(
    titles: Seq<Seq<char>>,
    platform: Platform,
    reports: Seq<ReportView>,
    note: Seq<char>,
)
    requires
        forall|i: int|
            0 <= i < reports.len() ==> (#[trigger] reports[i] matches ReportView::Lookup(found)
                ==> !is_window(found)),
    ensures
        ({
            let reached = after_all(window_start(titles, platform), reports, note);
            &&& reached is Locating || reached == failed(CaptureErrorView::WindowNotFound)
                || reached == failed(CaptureErrorView::Unsupported)
            &&& pending_of(reached) is FindWindow || pending_of(reached) is Finished
        }),
    decreases reports.len(),
{
    if reports.len() > 0 {
        let earlier = reports.drop_last();
        assert forall|i: int| 0 <= i < earlier.len() implies (#[trigger] earlier[i] matches
            ReportView::Lookup(found) ==> !is_window(found)) by {
            assert(earlier[i] == reports[i]);
        }
        without_a_window_nothing_is_captured(titles, platform, earlier, note);
        assert(reports.last() == reports[reports.len() - 1]);
    }
}

/// A window whose rectangle has zero width or zero height fails the capture
/// with `InvalidGeometry` before any capture attempt: whatever was reported
/// before and whatever is reported after, the capture never asks for pixels.
pub proof fn empty_rectangle_fails_before_any_capture(
    titles: Seq<Seq<char>>,
    platform: Platform,
    reports: Seq<ReportView>,
    k: int,
    j: int,
    edges: Edges,
    note: Seq<char>,
)
    requires
        0 <= k < reports.len(),
        0 <= j <= reports.len(),
        after_all(window_start(titles, platform), reports.take(k), note) is Measuring,
        reports[k] == ReportView::Measured(edges),
        edges.spec_is_degenerate(),
    ensures
        after_all(window_start(titles, platform), reports, note) == failed(
            CaptureErrorView::InvalidGeometry,
        ),
        ({
            let reached = after_all(window_start(titles, platform), reports.take(j), note);
            &&& !(reached is Capturing)
            &&& !(pending_of(reached) is CaptureScreen)
            &&& !(pending_of(reached) is CaptureRegion)
        }),
{
    let start = window_start(titles, platform);
    one_report_more(start, reports, k, note);
    whole_runs_only_advance(start, reports, k + 1, note);
    if j <= k {
        assert(reports.take(k).take(j) == reports.take(j));
        whole_runs_only_advance(start, reports.take(k), j, note);
    } else {
        assert(reports.take(j).take(k + 1) == reports.take(k + 1));
        whole_runs_only_advance(start, reports.take(j), k + 1, note);
    }
}

/// A capture that meets no failure asks for each step in turn, and hands
/// out what those steps gave: the text recognized, the path of the file,
/// and the base64 text of the very bytes that it had written to that file
/// and recognized. The file is named after the target and the time.
pub proof fn success_hands_out_what_was_saved(
    region: Option<crate::geometry::Rectangle>,
    raw: RawImageView,
    seconds: u64,
    path: Seq<char>,
    text: Seq<char>,
    note: Seq<char>,
)
    requires
        is_whole(raw.width, raw.height, raw.rgba.len() as int),
        png_encoding(raw.width, raw.height, raw.rgba) matches Some(png) && 0 < png.len()
            && fits_transport(png.len() as int),
    ensures
        ({
            let png = png_encoding(raw.width, raw.height, raw.rgba)->0;
            let start = StageView::Capturing { region };
            let reports = seq![
                ReportView::Captured(raw),
                ReportView::StoreReady(seconds),
                ReportView::Written(path),
                ReportView::Recognized(text),
            ];
            &&& pending_of(after_all(start, reports.take(1), note)) == (TaskView::PrepareStore {
                dir: CAPTURES_DIR@,
            })
            &&& pending_of(after_all(start, reports.take(2), note)) == (TaskView::WriteFile {
                dir: CAPTURES_DIR@,
                file_name: file_name_of(target_of(region).spec_prefix(), seconds),
                bytes: png,
            })
            &&& pending_of(after_all(start, reports.take(3), note)) == (TaskView::Recognize {
                bytes: png,
            })
            &&& after_all(start, reports, note) == (StageView::Done {
                outcome: Ok(
                    CaptureResultView {
                        text,
                        image_base64: base64_standard(png),
                        image_path: Some(path),
                    },
                ),
            })
        }),
{
    let start = StageView::Capturing { region };
    let reports = seq![
        ReportView::Captured(raw),
        ReportView::StoreReady(seconds),
        ReportView::Written(path),
        ReportView::Recognized(text),
    ];
    assert(reports.take(0).len() == 0);
    one_report_more(start, reports, 0, note);
    one_report_more(start, reports, 1, note);
    one_report_more(start, reports, 2, note);
    one_report_more(start, reports, 3, note);
    assert(reports.take(4) == reports);
}

/// No partial result is ever handed out: a capture ends with a result only
/// when the text is reported to the stage that waits for it, after the file
/// was written.
pub proof fn result_only_after_recognition(stage: StageView, report: ReportView, note: Seq<char>)
    requires
        !(stage is Done),
        stage_after(stage, report, note) matches StageView::Done { outcome: Ok(_) },
    ensures
        stage is Recognizing,
        report is Recognized,
{
}

} // verus!
