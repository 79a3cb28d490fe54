use grand_eden_launcher::download::{retry_message, DownloadPlan, DownloadStep};

fn answer(plan: &DownloadPlan, world: &mut World) -> Result<bool, String> {
    match plan.step {
        DownloadStep::CheckJavaCurrent => Ok(world.java_current),
        DownloadStep::CheckGameCurrent => Ok(world.game_current),
        DownloadStep::RemoveStaleJavaArchive => {
            world.java_zip = false;
            Ok(true)
        }
        DownloadStep::CheckJavaExe => Ok(world.java_exe),
        DownloadStep::CheckJavaArchive => Ok(world.java_zip),
        DownloadStep::CheckGameFiles => Ok(world.game_files),
        DownloadStep::CheckVersionArchive => Ok(world.version_zip),
        DownloadStep::DownloadJava => {
            world.java_zip = true;
            world.java_downloads += 1;
            Ok(true)
        }
        DownloadStep::DownloadVersion => {
            world.version_zip = true;
            world.version_downloads += 1;
            Ok(true)
        }
        DownloadStep::ValidateVersion => {
            if world.bad_versions > 0 {
                world.bad_versions -= 1;
                Err("Corrupted zip".to_string())
            } else {
                Ok(true)
            }
        }
        DownloadStep::ExtractJava => {
            world.java_exe = world.java_after_extract;
            world.java_extractions += 1;
            Ok(true)
        }
        DownloadStep::ExtractVersion => {
            world.game_files = true;
            world.version_extractions += 1;
            Ok(true)
        }
        DownloadStep::RecordJavaRevision => {
            world.java_current = true;
            Ok(true)
        }
        DownloadStep::RecordVersionRevision => {
            world.game_current = true;
            Ok(true)
        }
        DownloadStep::RemoveStaleVersionArchive | DownloadStep::RemoveBadVersionArchive => {
            world.version_zip = false;
            Ok(true)
        }
        DownloadStep::VerifyJava => Ok(world.java_exe),
        DownloadStep::VerifyForge => Ok(world.game_files),
        _ => Ok(true),
    }
}

struct World {
    java_current: bool,
    game_current: bool,
    java_extractions: u32,
    version_extractions: u32,
    java_exe: bool,
    java_zip: bool,
    java_after_extract: bool,
    game_files: bool,
    version_zip: bool,
    bad_versions: u32,
    java_downloads: u32,
    version_downloads: u32,
}

fn fresh() -> World {
    World {
        java_current: true,
        game_current: true,
        java_extractions: 0,
        version_extractions: 0,
        java_exe: false,
        java_zip: false,
        java_after_extract: true,
        game_files: false,
        version_zip: false,
        bad_versions: 0,
        java_downloads: 0,
        version_downloads: 0,
    }
}

fn drive(world: &mut World) -> (DownloadPlan, usize, Vec<DownloadStep>) {
    let mut plan = DownloadPlan::new("C:\\Games\\GrandEden");
    let mut steps = 0;
    let mut trace = Vec::new();
    while !plan.finished() {
        trace.push(plan.step);
        let o = answer(&plan, world);
        plan = plan.advance(o);
        steps += 1;
        assert!(steps <= 40);
    }
    (plan, steps, trace)
}

#[test]
fn fresh_install_succeeds() {
    let mut w = fresh();
    let (plan, _, trace) = drive(&mut w);
    assert_eq!(plan.step, DownloadStep::Succeeded);
    assert_eq!(w.java_downloads, 1);
    assert_eq!(w.version_downloads, 1);
    assert!(trace.ends_with(&[DownloadStep::VerifyJava, DownloadStep::VerifyForge, DownloadStep::ReportReady]));
}

#[test]
fn installed_game_fetches_nothing() {
    let mut w = fresh();
    w.java_exe = true;
    w.game_files = true;
    let (plan, steps, _) = drive(&mut w);
    assert_eq!(plan.step, DownloadStep::Succeeded);
    assert_eq!(steps, 8);
    assert_eq!(w.java_downloads + w.version_downloads, 0);
}

#[test]
fn existing_archives_are_checked_before_fetching() {
    let mut w = fresh();
    w.java_zip = true;
    w.version_zip = true;
    let (plan, _, _) = drive(&mut w);
    assert_eq!(plan.step, DownloadStep::Succeeded);
    assert_eq!(w.java_downloads + w.version_downloads, 0);
}

#[test]
fn bad_archive_is_retried() {
    let mut w = fresh();
    w.bad_versions = 2;
    let (plan, _, trace) = drive(&mut w);
    assert_eq!(plan.step, DownloadStep::Succeeded);
    assert_eq!(w.version_downloads, 3);
    assert_eq!(trace.iter().filter(|s| **s == DownloadStep::ReportRetry).count(), 2);
}

#[test]
fn three_bad_archives_fail() {
    let mut w = fresh();
    w.bad_versions = 5;
    let (plan, _, _) = drive(&mut w);
    assert_eq!(plan.step, DownloadStep::Failed);
    assert_eq!(plan.error, "Corrupted zip (after 3 download attempts)");
    assert_eq!(w.version_downloads, 3);
}

#[test]
fn stale_bad_archive_costs_an_attempt() {
    let mut w = fresh();
    w.java_exe = true;
    w.version_zip = true;
    w.bad_versions = 3;
    let (plan, _, _) = drive(&mut w);
    assert_eq!(plan.step, DownloadStep::Failed);
    assert_eq!(w.version_downloads, 2);
}

#[test]
fn missing_java_after_unpacking_fails() {
    let mut w = fresh();
    w.java_after_extract = false;
    let (plan, _, _) = drive(&mut w);
    assert_eq!(plan.step, DownloadStep::Failed);
    assert_eq!(plan.error, "Java not found after extraction.");
}

#[test]
fn failed_step_ends_with_its_error() {
    let plan = DownloadPlan::new("C:\\Games\\GrandEden").advance(Ok(true)).advance(Ok(true)).advance(Ok(false)).advance(Ok(false));
    assert_eq!(plan.step, DownloadStep::DownloadJava);
    let plan = plan.advance(Err("Failed to download java.zip: timeout".to_string()));
    assert_eq!(plan.step, DownloadStep::Failed);
    assert_eq!(plan.error, "Failed to download java.zip: timeout");
    let again = plan.advance(Ok(true));
    assert_eq!(again.step, DownloadStep::Failed);
}

#[test]
fn missing_forge_after_unpacking_fails() {
    let mut plan = DownloadPlan::new("C:\\Games\\GrandEden");
    plan.step = DownloadStep::VerifyForge;
    let plan = plan.advance(Ok(false));
    assert_eq!(plan.error, "Forge files not found. Check GITHUB_REPO_OWNER, GITHUB_REPO_NAME and GITHUB_BRANCH.");
}

#[test]
fn any_outcomes_end_within_bound() {
    let mut seed: u64 = 12345;
    for _ in 0..500 {
        let mut plan = DownloadPlan::new("C:\\Games\\GrandEden");
        let mut n = 0;
        let mut downloads = 0;
        while !plan.finished() {
            seed = seed.wrapping_mul(6364136223846793005).wrapping_add(1442695040888963407);
            let o = match (seed >> 60) % 3 {
                0 => Ok(true),
                1 => Ok(false),
                _ => Err("e".to_string()),
            };
            plan = plan.advance(o);
            if plan.step == DownloadStep::DownloadVersion {
                downloads += 1;
            }
            n += 1;
            assert!(n <= 40);
        }
        assert!(downloads <= 3);
    }
}

#[test]
fn retry_message_counts_attempts() {
    assert_eq!(retry_message(1), "Download incomplete, retrying (2/3)...");
    assert_eq!(retry_message(2), "Download incomplete, retrying (3/3)...");
}

#[test]
fn updated_java_is_fetched_again() {
    let mut w = fresh();
    w.java_exe = true;
    w.java_zip = true;
    w.game_files = true;
    w.java_current = false;
    let (plan, _, _) = drive(&mut w);
    assert_eq!(plan.step, DownloadStep::Succeeded);
    assert_eq!(w.java_downloads, 1);
    assert_eq!(w.java_extractions, 1);
    assert_eq!(w.version_downloads, 0);
    assert!(w.java_current);
}

#[test]
fn updated_game_files_are_fetched_again() {
    let mut w = fresh();
    w.java_exe = true;
    w.game_files = true;
    w.version_zip = true;
    w.game_current = false;
    let (plan, _, trace) = drive(&mut w);
    assert_eq!(plan.step, DownloadStep::Succeeded);
    assert_eq!(w.version_downloads, 1);
    assert_eq!(w.version_extractions, 1);
    assert!(trace.contains(&DownloadStep::RemoveStaleVersionArchive));
    assert!(w.game_current);
}

#[test]
fn current_install_is_left_alone() {
    let mut w = fresh();
    w.java_exe = true;
    w.game_files = true;
    let (plan, _, trace) = drive(&mut w);
    assert_eq!(plan.step, DownloadStep::Succeeded);
    assert_eq!(w.java_downloads + w.version_downloads + w.java_extractions + w.version_extractions, 0);
    assert!(!trace.contains(&DownloadStep::RecordJavaRevision));
}

#[test]
fn game_folder_does_not_change_the_plan() {
    let a = DownloadPlan::new("C:\\one");
    let b = DownloadPlan::new("");
    assert_eq!(a.step, b.step);
    assert_eq!(a.tries, b.tries);
    assert_eq!(a.refresh_game, b.refresh_game);
    assert_eq!(a.error, b.error);
}
