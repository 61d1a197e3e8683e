use clamguard::scanner::{
    clamignore_exclusions, exact_path_pattern, freshclam_finished, freshclam_not_started,
    freshclam_plan, infected_count, parse_found_line, parse_permission_error, progress_file,
    replace_newlines, AttemptEnd, ScanSession,
};
use std::collections::HashSet;

#[test]
fn test_error_parsing() {
    let stdout_str = "test_dir/d1/f1: Access denied\ntest_dir/d2: Can't open directory.\n";
    let stderr_str =
        "LibClamAV Error: cl_scandir: can't open directory test_dir/d3 (Permission denied)\n";

    let mut file_exclusions = HashSet::new();
    let mut dir_exclusions = HashSet::new();

    for line in stdout_str.lines().chain(stderr_str.lines()) {
        if let Some((is_dir, pattern)) = parse_permission_error(line) {
            if is_dir {
                dir_exclusions.insert(pattern);
            } else {
                file_exclusions.insert(pattern);
            }
        }
    }

    assert!(file_exclusions.contains("^test_dir/d1/f1$"));
    assert!(dir_exclusions.contains("^test_dir/d2$"));
    assert!(dir_exclusions.contains("^test_dir/d3$"));
}

#[test]
fn test_clamignore_parsing() {
    let content = "# comment\nexclusion1\n\n  exclusion2  \n";
    let lines: Vec<String> = content.lines().map(|l| l.to_string()).collect();

    let file_exclusions: HashSet<String> = clamignore_exclusions(&lines).into_iter().collect();

    assert!(file_exclusions.contains("exclusion1"));
    assert!(file_exclusions.contains("exclusion2"));
    assert_eq!(file_exclusions.len(), 2);
}

#[test]
fn test_summary_parsing() {
    let summary = "----------- SCAN SUMMARY -----------\nKnown viruses: 8684783\nEngine version: 1.1.0\nScanned directories: 1\nScanned files: 1\nInfected files: 2\nData scanned: 0.00 MB\n";
    assert_eq!(infected_count(summary), 2);
}

#[test]
fn infected_count_edges() {
    assert_eq!(infected_count("no summary here"), 0);
    assert_eq!(infected_count("Infected files: 0\n"), 0);
    assert_eq!(infected_count("Infected files: x\nInfected files: 7\n"), 7);
    assert_eq!(infected_count("Infected files: 99999999999\n"), 0);
    assert_eq!(infected_count("Infected files: 12abc"), 12);
}

#[test]
fn clamignore_drops_repeats_and_comments() {
    let lines: Vec<String> = vec!["a".into(), " a ".into(), "  # not this".into(), "b".into(), "".into()];
    assert_eq!(clamignore_exclusions(&lines), vec!["a".to_string(), "b".to_string()]);
}

#[test]
fn found_line_takes_last_separator() {
    assert_eq!(parse_found_line("/a/b.exe: Eicar-Test-Signature FOUND"), Some("/a/b.exe".to_string()));
    assert_eq!(parse_found_line("/a: b: Virus FOUND"), Some("/a: b".to_string()));
    assert_eq!(parse_found_line("/p:  FOUND"), Some("/p".to_string()));
    assert_eq!(parse_found_line("/a/b.exe: OK"), None);
    assert_eq!(parse_found_line("no separator FOUND"), None);
    assert_eq!(parse_found_line("a: b\nc FOUND"), None);
}

#[test]
fn permission_messages() {
    assert_eq!(
        parse_permission_error("  /V/my file.txt : Access denied  "),
        Some((false, "^/V/my file\\.txt$".to_string()))
    );
    assert_eq!(
        parse_permission_error("/V/dir: Can't open directory."),
        Some((true, "^/V/dir$".to_string()))
    );
    assert_eq!(
        parse_permission_error(
            "x LibClamAV Error: cl_scandir: can't open directory /V/a (b) (Permission denied) tail"
        ),
        Some((true, "^/V/a \\(b\\)$".to_string()))
    );
    assert_eq!(parse_permission_error("/V/f: OK"), None);
}

#[test]
fn escaping_changes_meta_characters() {
    assert_eq!(exact_path_pattern("/x/$RECYCLE.BIN"), "^/x/\\$RECYCLE\\.BIN$");
    assert_eq!(exact_path_pattern("/plain/path"), "^/plain/path$");
}

#[test]
fn progress_lines() {
    assert_eq!(progress_file("/V/a.txt: OK"), Some("/V/a.txt".to_string()));
    assert_eq!(progress_file("/V/a:b.txt: OK"), Some("/V/a".to_string()));
    assert_eq!(progress_file("LibClamAV Warning: x"), None);
    assert_eq!(progress_file("/V/no-colon"), None);
}

#[test]
fn newlines_become_spaces() {
    assert_eq!(replace_newlines("a\nb\n"), "a b ");
}

#[test]
fn infected_scan_is_reported() {
    let mut s = ScanSession::new("/Volumes/USB", true, &vec![]);
    s.begin_attempt("T0");
    assert_eq!(s.log_buffer, "\n--- Scan starting for: /Volumes/USB at T0 ---\n");
    assert!(s.on_line("/Volumes/USB/a.exe: Eicar-Test-Signature FOUND", false));
    assert!(s.on_line("/Volumes/USB/a.exe: Eicar-Test-Signature FOUND", false));
    assert!(s.on_line("----------- SCAN SUMMARY -----------", false));
    assert!(s.on_line("Infected files: 1", false));
    match s.finish_attempt(Some(1), "exit status: 1", "T1") {
        AttemptEnd::Done(rep) => {
            assert!(rep.virus_found);
            assert_eq!(rep.details, "----------- SCAN SUMMARY -----------\nInfected files: 1\n");
            assert_eq!(rep.infected_files, vec!["/Volumes/USB/a.exe".to_string()]);
            assert_eq!(rep.events.len(), 2);
            assert_eq!(rep.events[0].event_type, "INFECTION_DETECTED");
            assert_eq!(
                rep.events[0].message,
                "Malware found on /Volumes/USB: ----------- SCAN SUMMARY ----------- Infected files: 1 "
            );
            assert_eq!(rep.events[1].event_type, "SCAN_COMPLETE");
            assert_eq!(
                rep.events[1].message,
                "Scan of /Volumes/USB finished. Status: INFECTED. Details: ----------- SCAN SUMMARY ----------- Infected files: 1 "
            );
            assert!(rep.notify);
            assert!(rep.eject);
            assert!(rep.write_log);
        }
        AttemptEnd::Retry => panic!("no retry expected"),
    }
    assert!(s.log_buffer.ends_with("--- Scan finished for: /Volumes/USB at T1 with exit code: exit status: 1 ---\n"));
}

#[test]
fn exit_one_without_count_is_not_infected() {
    let mut s = ScanSession::new("/V", true, &vec![]);
    s.begin_attempt("T");
    s.on_line("/V/a: X FOUND", false);
    match s.finish_attempt(Some(1), "exit status: 1", "T") {
        AttemptEnd::Done(rep) => {
            assert!(!rep.virus_found);
            assert!(!rep.notify);
            assert!(!rep.eject);
            assert_eq!(rep.infected_files, vec!["/V/a".to_string()]);
            assert_eq!(
                rep.events[0].message,
                "Scan of /V finished. Status: CLEAN. Details: Scan finished with exit code 1 but no infected files found in summary"
            );
        }
        AttemptEnd::Retry => panic!("no retry expected"),
    }
}

#[test]
fn clean_scan() {
    let mut s = ScanSession::new("/V", false, &vec![]);
    s.begin_attempt("T");
    s.on_line("/V/a: OK", false);
    match s.finish_attempt(Some(0), "exit status: 0", "T") {
        AttemptEnd::Done(rep) => {
            assert!(!rep.virus_found);
            assert_eq!(rep.details, "");
            assert_eq!(rep.events.len(), 1);
            assert_eq!(rep.events[0].event_type, "SCAN_COMPLETE");
            assert_eq!(rep.events[0].message, "Scan of /V finished. Status: CLEAN. Details: No threats found");
        }
        AttemptEnd::Retry => panic!("no retry expected"),
    }
}

#[test]
fn permission_errors_are_retried_then_reported() {
    let mut s = ScanSession::new("/V", false, &vec![".cache".to_string()]);
    s.begin_attempt("T");
    s.on_line("/V/secret: Access denied", false);
    s.on_line("/V/dir: Can't open directory.", false);
    match s.finish_attempt(Some(2), "exit status: 2", "T") {
        AttemptEnd::Retry => {}
        AttemptEnd::Done(_) => panic!("a retry was expected"),
    }
    assert_eq!(s.retry_count, 1);
    assert!(s.log_buffer.ends_with("Detected permission issues, retrying with additional exclusions...\n"));
    assert_eq!(s.file_exclusions, vec![".cache".to_string(), "^/V/secret$".to_string()]);
    assert_eq!(s.dir_exclusions.len(), 8);
    assert_eq!(s.dir_exclusions[7], "^/V/dir$");

    s.begin_attempt("T2");
    assert_eq!(
        s.log_buffer,
        "\n--- Retry #1 for: /V at T2 ---\nExcluding 2 files and 1 directories (plus defaults)\n"
    );
    let args = s.command_args(Some("/db"));
    assert_eq!(
        args,
        vec![
            "-r", "--bell", "--database=/db",
            "--exclude-dir=\\.Spotlight-V100", "--exclude-dir=\\.fseventsd", "--exclude-dir=\\.Trashes",
            "--exclude-dir=\\.DocumentRevisions-V100", "--exclude-dir=\\.TemporaryItems",
            "--exclude-dir=\\$RECYCLE\\.BIN", "--exclude-dir=System Volume Information",
            "--exclude-dir=^/V/dir$", "--exclude=.cache", "--exclude=^/V/secret$", "/V",
        ]
    );
    s.on_line("/V/secret: Access denied", false);
    match s.finish_attempt(Some(2), "exit status: 2", "T3") {
        AttemptEnd::Done(rep) => {
            assert!(!rep.virus_found);
            assert_eq!(
                rep.details,
                "clamscan finished with some errors (exit code 2) after 1 retries. Check clamav_external_scans.log for details."
            );
        }
        AttemptEnd::Retry => panic!("nothing new to exclude"),
    }
}

#[test]
fn retries_stop_after_five() {
    let mut s = ScanSession::new("/V", false, &vec![]);
    let mut runs = 0;
    loop {
        runs += 1;
        s.begin_attempt("T");
        let line = format!("/V/f{}: Access denied", runs);
        s.on_line(&line, false);
        match s.finish_attempt(Some(2), "exit status: 2", "T") {
            AttemptEnd::Retry => continue,
            AttemptEnd::Done(rep) => {
                assert_eq!(
                    rep.details,
                    "clamscan finished with some errors (exit code 2) after 5 retries. Check clamav_external_scans.log for details."
                );
                break;
            }
        }
    }
    assert_eq!(runs, 6);
}

#[test]
fn cancelled_scan() {
    let mut s = ScanSession::new("/V", true, &vec![]);
    s.begin_attempt("T");
    s.on_line("/V/a: X FOUND", false);
    assert!(!s.on_line("/V/b: X FOUND", true));
    match s.finish_attempt(None, "signal: 9", "T") {
        AttemptEnd::Done(rep) => {
            assert!(!rep.virus_found);
            assert_eq!(rep.details, "Scan cancelled by user");
            assert!(rep.infected_files.is_empty());
            assert!(!rep.write_log);
            assert_eq!(rep.events[0].message, "Scan of /V finished. Status: CLEAN. Details: Scan cancelled by user");
        }
        AttemptEnd::Retry => panic!("no retry expected"),
    }
}

#[test]
fn other_exit_statuses() {
    let mut s = ScanSession::new("/V", false, &vec![]);
    s.begin_attempt("T");
    match s.finish_attempt(Some(40), "exit status: 40", "T") {
        AttemptEnd::Done(rep) => assert_eq!(rep.details, "clamscan exited with non-zero status: Some(40)"),
        AttemptEnd::Retry => panic!(),
    }
    let mut s = ScanSession::new("/V", false, &vec![]);
    s.begin_attempt("T");
    match s.finish_attempt(None, "signal: 15", "T") {
        AttemptEnd::Done(rep) => assert_eq!(rep.details, "clamscan exited with non-zero status: None"),
        AttemptEnd::Retry => panic!(),
    }
    let mut s = ScanSession::new("/V", false, &vec![]);
    s.begin_attempt("T");
    match s.finish_attempt(Some(-3), "x", "T") {
        AttemptEnd::Done(rep) => assert_eq!(rep.details, "clamscan exited with non-zero status: Some(-3)"),
        AttemptEnd::Retry => panic!(),
    }
}

#[test]
fn summary_starts_at_marker() {
    let mut s = ScanSession::new("/V", false, &vec![]);
    s.begin_attempt("T");
    s.on_line("before", false);
    s.on_line("x ----------- SCAN SUMMARY ----------- y", false);
    s.on_line("after", false);
    assert_eq!(s.summary, "x ----------- SCAN SUMMARY ----------- y\nafter\n");
    assert_eq!(s.attempt_lines.len(), 3);
}

#[test]
fn freshclam_commands_and_events() {
    let p = freshclam_plan(true, Some("/db"), None);
    assert_eq!(p.args, vec!["--user=root".to_string(), "--datadir=/db".to_string()]);
    assert_eq!(p.tmpdir, None);
    let p = freshclam_plan(false, None, None);
    assert!(p.args.is_empty());
    assert_eq!(p.tmpdir, Some("/tmp".to_string()));
    let p = freshclam_plan(true, None, Some("/scratch"));
    assert_eq!(p.tmpdir, Some("/scratch".to_string()));

    let e = freshclam_finished(true, Some(0), "o", "e");
    assert_eq!(e.message, "ClamAV database update SUCCESS. Details: Database updated successfully");
    let e = freshclam_finished(false, Some(1), "o", "e");
    assert_eq!(
        e.message,
        "ClamAV database update FAILED. Details: Exited with code 1. Output: STDOUT: o\nSTDERR: e"
    );
    let e = freshclam_finished(false, None, "", "");
    assert_eq!(e.message, "ClamAV database update FAILED. Details: Exited with code -1. Output: STDOUT: \nSTDERR: ");
    let e = freshclam_not_started("boom");
    assert_eq!(e.event_type, "UPDATE_COMPLETE");
    assert_eq!(e.message, "ClamAV database update FAILED. Details: Failed to execute freshclam: boom");
}

#[test]
fn infected_count_follows_unicode_digits() {
    // `\d` takes the Arabic-Indic digit into the run, which then does not
    // parse as a number.
    assert_eq!(infected_count("Infected files: 2\u{0663}\n"), 0);
    assert_eq!(infected_count("Infected files: \u{0663}\nInfected files: 4\n"), 0);
    // a label without a digit after it is passed over
    assert_eq!(infected_count("Infected files: none\nInfected files: 7\n"), 7);
    assert_eq!(infected_count("Infected files: 12\n"), 12);
    assert_eq!(infected_count("Infected files: 99999999999\n"), 0);
    assert_eq!(infected_count("no summary"), 0);
}
