use smashnet_nro::curl::HttpCurlError;
use smashnet_nro::curler::{
    text_location_string, Curler, GetAction, GetEvent, GetStep, ProgressCallback, Teardown,
};
use smashnet_nro::download::{Action, Event};

#[test]
fn new_rejects_null_handle() {
    assert!(matches!(Curler::new(0), Err(HttpCurlError::NoHandle)));
    let c = Curler::new(42).unwrap();
    assert_eq!(c.curl, 42);
    assert_eq!(c.registered_callback(), None);
}

#[test]
fn progress_callback_is_registered() {
    let mut c = Curler::new(42).unwrap();
    let cb = ProgressCallback { callback: 1, data: 2 };
    c.progress_callback(cb);
    assert_eq!(c.registered_callback(), Some(cb));
    let (d, _) = c.download("u", "l");
    assert_eq!(d.callback(), Some(cb));
    assert_eq!(d.handle(), 42);
}

#[test]
fn teardown_releases_handle_and_data() {
    let mut c = Curler::new(42).unwrap();
    assert_eq!(c.teardown(), Teardown { cleanup_handle: Some(42), release_data: None });
    c.progress_callback(ProgressCallback { callback: 1, data: 2 });
    assert_eq!(c.teardown(), Teardown { cleanup_handle: Some(42), release_data: Some(2) });
}

#[test]
fn text_location_uses_tick() {
    assert_eq!(text_location_string(1234), "sd:/downloads/1234.txt");
}

fn answer(a: &Action) -> Event {
    match a {
        Action::TempExists | Action::LocationExists => Event::Exists(false),
        Action::SetOpt(..) | Action::Perform => Event::Code(0),
        Action::TempSize => Event::Size(64),
        _ => Event::Done,
    }
}

#[test]
fn get_downloads_reads_and_removes() {
    let c = Curler::new(42).unwrap();
    let (mut g, mut step) = c.get("http://h/t", 99);
    assert_eq!(g.current_download().location(), "sd:/downloads/99.txt");
    assert_eq!(g.current_download().temp(), "sd:/downloads/99.txt.dl");
    assert_eq!(g.current_download().c_url(), "http://h/t\0");
    let mut actions = vec![];
    let result = loop {
        match step {
            GetStep::Do(GetAction::Download(a)) => step = g.step(GetEvent::Download(answer(&a))),
            GetStep::Do(GetAction::ReadText) => {
                actions.push(GetAction::ReadText);
                step = g.step(GetEvent::Text(Ok("hello".to_string())));
            }
            GetStep::Do(GetAction::RemoveText) => {
                actions.push(GetAction::RemoveText);
                step = g.step(GetEvent::Done);
            }
            GetStep::Finished(r) => break r,
        }
    };
    assert_eq!(actions, vec![GetAction::ReadText, GetAction::RemoveText]);
    assert_eq!(result, Ok("hello".to_string()));
}

#[test]
fn get_passes_download_error_on() {
    let c = Curler::new(42).unwrap();
    let (mut g, mut step) = c.get("http://h/t", 1);
    let result = loop {
        match step {
            GetStep::Do(GetAction::Download(a)) => {
                let e = match a {
                    Action::SetOpt(..) => Event::Code(6),
                    other => answer(&other),
                };
                step = g.step(GetEvent::Download(e));
            }
            GetStep::Do(_) => panic!("no file to read"),
            GetStep::Finished(r) => break r,
        }
    };
    assert_eq!(result, Err(HttpCurlError::Curl(6)));
}

#[test]
fn get_reports_unreadable_text() {
    let c = Curler::new(42).unwrap();
    let (mut g, mut step) = c.get("http://h/t", 1);
    let result = loop {
        match step {
            GetStep::Do(GetAction::Download(a)) => step = g.step(GetEvent::Download(answer(&a))),
            GetStep::Do(GetAction::ReadText) => {
                step = g.step(GetEvent::Text(Err("not UTF-8".to_string())))
            }
            GetStep::Do(GetAction::RemoveText) => panic!("nothing was read"),
            GetStep::Finished(r) => break r,
        }
    };
    assert_eq!(result, Err(HttpCurlError::Read("not UTF-8".to_string())));
}
