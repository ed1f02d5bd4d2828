use smashnet_nro::curl::{curle, CurlOption, HttpCurlError};
use smashnet_nro::curler::ProgressCallback;
use smashnet_nro::download::{write_size, Action, Download, Event, OptValue, Step};

fn progress() -> Option<ProgressCallback> {
    Some(ProgressCallback { callback: 0x1000, data: 0x2000 })
}

/// Runs a download on scripted answers; returns every step it took.
fn run(mut d: Download, first: Step, answer: &mut dyn FnMut(&Action) -> Event) -> Vec<Step> {
    let mut steps = vec![];
    let mut step = first;
    loop {
        match step {
            Step::Do(a) => {
                steps.push(Step::Do(a));
                let e = answer(&a);
                assert!(d.accepts(&e));
                step = d.step(e);
            }
            Step::Finished(r) => {
                steps.push(Step::Finished(r));
                return steps;
            }
        }
    }
}

fn setopts(steps: &[Step]) -> Vec<(CurlOption, OptValue)> {
    steps
        .iter()
        .filter_map(|s| match s {
            Step::Do(Action::SetOpt(o, v)) => Some((*o, *v)),
            _ => None,
        })
        .collect()
}

fn ok_answers(size: u64) -> impl FnMut(&Action) -> Event {
    move |a: &Action| match a {
        Action::TempExists | Action::LocationExists => Event::Exists(false),
        Action::SetOpt(..) | Action::Perform => Event::Code(0),
        Action::TempSize => Event::Size(size),
        _ => Event::Done,
    }
}

#[test]
fn curle_ok_and_error() {
    assert_eq!(curle(0), Ok(()));
    assert_eq!(curle(6), Err(6));
}

#[test]
fn option_codes_are_libcurl_numbers() {
    assert_eq!(CurlOption::Url.code(), 10002);
    assert_eq!(CurlOption::FollowLocation.code(), 52);
    assert_eq!(CurlOption::WriteData.code(), 10001);
    assert_eq!(CurlOption::WriteFunction.code(), 20011);
    assert_eq!(CurlOption::FailOnError.code(), 45);
    assert_eq!(CurlOption::NoProgress.code(), 43);
    assert_eq!(CurlOption::ProgressData.code(), 10057);
    assert_eq!(CurlOption::ProgressFunction.code(), 20056);
    assert_eq!(CurlOption::NoSignal.code(), 99);
    assert_eq!(CurlOption::SslCtxFunction.code(), 20108);
    assert_eq!(CurlOption::UserAgent.code(), 10018);
}

#[test]
fn new_download_names_its_files() {
    let (d, s) = Download::new(7, None, "http://h/f", "sd:/f.txt");
    assert_eq!(s, Step::Do(Action::TempExists));
    assert_eq!(d.handle(), 7);
    assert_eq!(d.c_url(), "http://h/f\0");
    assert_eq!(d.location(), "sd:/f.txt");
    assert_eq!(d.temp(), "sd:/f.txt.dl");
}

#[test]
fn successful_download_without_progress() {
    let (d, s) = Download::new(7, None, "u", "l");
    let steps = run(d, s, &mut ok_answers(100));
    assert_eq!(
        setopts(&steps),
        vec![
            (CurlOption::Url, OptValue::Url),
            (CurlOption::FollowLocation, OptValue::Long(1)),
            (CurlOption::WriteData, OptValue::WriteTarget),
            (CurlOption::WriteFunction, OptValue::WriteCallback),
            (CurlOption::FailOnError, OptValue::Long(1)),
            (CurlOption::NoProgress, OptValue::Long(1)),
            (CurlOption::NoSignal, OptValue::Long(1)),
            (CurlOption::SslCtxFunction, OptValue::SslCtxCallback),
            (CurlOption::UserAgent, OptValue::UserAgent),
        ]
    );
    assert!(!steps.contains(&Step::Do(Action::AllocProgressData)));
    let n = steps.len();
    assert_eq!(steps[n - 2], Step::Do(Action::RenameTemp));
    assert_eq!(steps[n - 1], Step::Finished(Ok(())));
}

#[test]
fn successful_download_with_progress_holds_and_frees_data() {
    let (d, s) = Download::new(7, progress(), "u", "l");
    let steps = run(d, s, &mut ok_answers(100));
    assert_eq!(
        setopts(&steps)[5..8].to_vec(),
        vec![
            (CurlOption::NoProgress, OptValue::Long(0)),
            (CurlOption::ProgressData, OptValue::ProgressTarget),
            (CurlOption::ProgressFunction, OptValue::ProgressCallback),
        ]
    );
    let alloc = steps.iter().position(|s| *s == Step::Do(Action::AllocProgressData)).unwrap();
    let perform = steps.iter().position(|s| *s == Step::Do(Action::Perform)).unwrap();
    let free = steps.iter().position(|s| *s == Step::Do(Action::FreeProgressData)).unwrap();
    assert!(alloc < perform && perform < free);
    assert_eq!(steps.iter().filter(|s| **s == Step::Do(Action::FreeProgressData)).count(), 1);
    assert_eq!(steps.last(), Some(&Step::Finished(Ok(()))));
}

#[test]
fn stale_temp_and_old_target_are_removed() {
    let (d, s) = Download::new(7, None, "u", "l");
    let steps = run(d, s, &mut |a: &Action| match a {
        Action::TempExists | Action::LocationExists => Event::Exists(true),
        Action::SetOpt(..) | Action::Perform => Event::Code(0),
        Action::TempSize => Event::Size(8),
        _ => Event::Done,
    });
    assert_eq!(steps[1], Step::Do(Action::RemoveTemp));
    assert_eq!(steps[2], Step::Do(Action::CreateTemp));
    let n = steps.len();
    assert_eq!(steps[n - 3], Step::Do(Action::RemoveLocation));
    assert_eq!(steps[n - 2], Step::Do(Action::RenameTemp));
    assert_eq!(steps[n - 1], Step::Finished(Ok(())));
}

#[test]
fn failing_option_ends_with_its_code() {
    let (d, s) = Download::new(7, None, "u", "l");
    let mut count = 0;
    let steps = run(d, s, &mut |a: &Action| match a {
        Action::TempExists => Event::Exists(false),
        Action::SetOpt(..) => {
            count += 1;
            Event::Code(if count == 3 { 43 } else { 0 })
        }
        _ => Event::Done,
    });
    assert_eq!(setopts(&steps).len(), 3);
    assert_eq!(steps.last(), Some(&Step::Finished(Err(HttpCurlError::Curl(43)))));
    assert!(!steps.contains(&Step::Do(Action::Perform)));
}

#[test]
fn failing_progress_option_frees_data_first() {
    let (d, s) = Download::new(7, progress(), "u", "l");
    let steps = run(d, s, &mut |a: &Action| match a {
        Action::TempExists => Event::Exists(false),
        Action::SetOpt(CurlOption::ProgressData, _) => Event::Code(48),
        Action::SetOpt(..) => Event::Code(0),
        _ => Event::Done,
    });
    let n = steps.len();
    assert_eq!(steps[n - 2], Step::Do(Action::FreeProgressData));
    assert_eq!(steps[n - 1], Step::Finished(Err(HttpCurlError::Curl(48))));
}

#[test]
fn failing_late_option_frees_data_first() {
    let (d, s) = Download::new(7, progress(), "u", "l");
    let steps = run(d, s, &mut |a: &Action| match a {
        Action::TempExists => Event::Exists(false),
        Action::SetOpt(CurlOption::UserAgent, _) => Event::Code(27),
        Action::SetOpt(..) => Event::Code(0),
        _ => Event::Done,
    });
    let n = steps.len();
    assert_eq!(steps[n - 2], Step::Do(Action::FreeProgressData));
    assert_eq!(steps[n - 1], Step::Finished(Err(HttpCurlError::Curl(27))));
}

#[test]
fn transfer_error_code_is_ignored() {
    let (d, s) = Download::new(7, None, "u", "l");
    let steps = run(d, s, &mut |a: &Action| match a {
        Action::TempExists | Action::LocationExists => Event::Exists(false),
        Action::SetOpt(..) => Event::Code(0),
        Action::Perform => Event::Code(22),
        Action::TempSize => Event::Size(4096),
        _ => Event::Done,
    });
    assert_eq!(steps.last(), Some(&Step::Finished(Ok(()))));
}

#[test]
fn file_under_eight_bytes_is_removed_and_fails() {
    let (d, s) = Download::new(7, None, "u", "l");
    let steps = run(d, s, &mut ok_answers(7));
    let n = steps.len();
    assert_eq!(steps[n - 3], Step::Do(Action::TempSize));
    assert_eq!(steps[n - 2], Step::Do(Action::RemoveTemp));
    assert_eq!(steps[n - 1], Step::Finished(Err(HttpCurlError::EmptyDownload)));
}

#[test]
fn file_of_eight_bytes_is_kept() {
    let (d, s) = Download::new(7, None, "u", "l");
    let steps = run(d, s, &mut ok_answers(8));
    assert_eq!(steps.last(), Some(&Step::Finished(Ok(()))));
}

#[test]
fn download_takes_a_bounded_number_of_steps() {
    let (d, s) = Download::new(7, progress(), "u", "l");
    let steps = run(d, s, &mut |a: &Action| match a {
        Action::TempExists | Action::LocationExists => Event::Exists(true),
        Action::SetOpt(..) | Action::Perform => Event::Code(0),
        Action::TempSize => Event::Size(9),
        _ => Event::Done,
    });
    assert!(steps.len() <= 71);
}

#[test]
fn finished_download_accepts_nothing() {
    let (mut d, _) = Download::new(7, None, "u", "l");
    assert!(!d.accepts(&Event::Done));
    assert!(d.accepts(&Event::Exists(false)));
    d.step(Event::Exists(false));
    assert!(d.accepts(&Event::Done));
    assert!(!d.accepts(&Event::Code(0)));
}

#[test]
fn write_size_is_product() {
    assert_eq!(write_size(3, 7), 21);
    assert_eq!(write_size(0, 100), 0);
}

#[test]
fn text_values_are_url_and_user_agent() {
    let (d, _) = Download::new(7, None, "http://h/f", "l");
    assert_eq!(d.text_value(OptValue::Url), Some("http://h/f\0"));
    assert_eq!(d.text_value(OptValue::UserAgent), Some("smashnet\0"));
    assert_eq!(d.text_value(OptValue::Long(1)), None);
    assert_eq!(d.text_value(OptValue::WriteTarget), None);
}
