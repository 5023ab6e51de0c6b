use toolbox::dispatch::Dispatcher;
use toolbox::exchange::{elapsed_between, notes, redirect_path, Exchange};
use toolbox::message::{elapsed_color, method_color, status_color, Color, Message};
use toolbox::output::{OutFile, OutputMethod, Render, Stdout, NANOS_PER_DAY};
use toolbox::template::replace_text;
use toolbox::timestamp::{CalendarDate, Timestamp};

fn stamp(year: i32, month: u8, day: u8) -> Timestamp {
    Timestamp {
        year,
        month,
        day,
        hour: 9,
        minute: 3,
        second: 7,
        nanosecond: 123_456_789,
        unix_nanos: 1_704_445_387_123_456_789,
    }
}

fn message(day: u8) -> Message {
    Message {
        begin: stamp(2024, 1, day),
        elapsed: 5_300_000,
        method: "GET".to_string(),
        path: "/index".to_string(),
        status: 200,
        ip: "127.0.0.1".to_string(),
        other: " Error(x)".to_string(),
    }
}

fn file_sink(day: u8, delete: Option<i64>) -> OutFile {
    OutFile::new(
        "logs".to_string(),
        "{date}.log".to_string(),
        delete,
        CalendarDate { year: 2024, month: 1, day },
    )
}

#[test]
fn plain_line_exact() {
    let line = message(5).write();
    assert_eq!(
        line,
        "[24-01-05 09:03:07.1234] SALVO │ 200 │   5ms │ 127.0.0.1       │    GET │ /index  Error(x)\n"
    );
}

#[test]
fn color_line_exact() {
    let line = message(5).write_color();
    assert_eq!(
        line,
        "[24-01-05 09:03:07.1234] \x1b[33mSALVO\x1b[0m │ \x1b[42m 200 \x1b[0m │ \x1b[32m  5ms\x1b[0m │ \x1b[33m127.0.0.1      \x1b[0m │ \x1b[42m    GET \x1b[0m /index \x1b[31m Error(x)\x1b[0m\n"
    );
}

#[test]
fn plain_formatting_is_repeatable() {
    let m = message(5);
    let copy = m.clone();
    assert_eq!(m.write(), m.write());
    assert_eq!(m.write(), copy.write());
}

#[test]
fn long_fields_are_not_cut() {
    let mut m = message(5);
    m.elapsed = 1_234_000_000;
    m.method = "OPTIONS".to_string();
    m.ip = "2001:db8::1:2:3:4:5".to_string();
    m.status = 0;
    m.other = String::new();
    assert_eq!(
        m.write(),
        "[24-01-05 09:03:07.1234] SALVO │ 0 │ 1234ms │ 2001:db8::1:2:3:4:5 │ OPTIONS │ /index \n"
    );
}

#[test]
fn status_buckets() {
    assert_ne!(status_color(199), status_color(200));
    assert_ne!(status_color(399), status_color(400));
    assert_eq!(status_color(0), Color::Blue);
    assert_eq!(status_color(199), Color::Blue);
    assert_eq!(status_color(200), Color::Green);
    assert_eq!(status_color(299), Color::Green);
    assert_eq!(status_color(300), Color::Yellow);
    assert_eq!(status_color(399), Color::Yellow);
    assert_eq!(status_color(400), Color::Red);
    assert_eq!(status_color(599), Color::Red);
    assert_eq!(status_color(600), Color::Purple);
    assert_eq!(status_color(700), Color::Purple);
}

#[test]
fn elapsed_buckets() {
    assert_eq!(elapsed_color(9), Color::Green);
    assert_eq!(elapsed_color(10), Color::Blue);
    assert_eq!(elapsed_color(19), Color::Blue);
    assert_eq!(elapsed_color(20), Color::Yellow);
    assert_eq!(elapsed_color(29), Color::Yellow);
    assert_eq!(elapsed_color(30), Color::Red);
    assert_eq!(elapsed_color(0), Color::Green);
}

#[test]
fn method_buckets() {
    assert_eq!(method_color(&"GET".to_string()), Color::Green);
    assert_eq!(method_color(&"POST".to_string()), Color::Blue);
    assert_eq!(method_color(&"PATCH".to_string()), Color::Yellow);
    assert_eq!(method_color(&"PUT".to_string()), Color::Yellow);
    assert_eq!(method_color(&"DELETE".to_string()), Color::Red);
    assert_eq!(method_color(&"HEAD".to_string()), Color::Purple);
    assert_eq!(method_color(&"get".to_string()), Color::Purple);
}

#[test]
fn color_codes() {
    assert_eq!(Color::Red.fg(), "\x1b[31m");
    assert_eq!(Color::Purple.bg(), "\x1b[45m");
}

#[test]
fn date_texts() {
    assert_eq!(CalendarDate { year: 2024, month: 1, day: 5 }.to_text(), "2024-01-05");
    assert_eq!(CalendarDate { year: 987, month: 12, day: 31 }.to_text(), "0987-12-31");
    assert_eq!(stamp(2003, 11, 9).to_text(), "03-11-09 09:03:07.1234");
}

#[test]
fn template_replacement() {
    assert_eq!(replace_text("app-{date}.log", "{date}", "2024-01-05"), "app-2024-01-05.log");
    assert_eq!(replace_text("{date}/{date}", "{date}", "d"), "d/d");
    assert_eq!(replace_text("plain.log", "{date}", "d"), "plain.log");
    assert_eq!(replace_text("{dat{date}", "{date}", "x"), "{datx");
    assert_eq!(replace_text("", "{date}", "x"), "");
}

#[test]
fn file_name_for_date() {
    let f = file_sink(5, None);
    assert_eq!(f.file_name(CalendarDate { year: 2024, month: 1, day: 6 }), "2024-01-06.log");
}

#[test]
fn rotation_on_new_date() {
    let mut f = file_sink(5, None);
    let (rot, line) = f.output(&message(5));
    assert!(rot.is_none());
    assert_eq!(line, message(5).write());

    let (rot, line) = f.output(&message(6));
    let rot = rot.expect("a message of another date switches files");
    assert_eq!(rot.file_name, "2024-01-06.log");
    assert_eq!(rot.date, CalendarDate { year: 2024, month: 1, day: 6 });
    assert_eq!(line, message(6).write());

    f.rotated(rot.date);
    let (rot, _) = f.output(&message(6));
    assert!(rot.is_none());
    let (rot, _) = f.output(&message(5));
    assert_eq!(rot.expect("an earlier date switches back").file_name, "2024-01-05.log");
}

#[test]
fn update_log_file_names_the_date() {
    let f = file_sink(5, Some(7));
    let rot = f.update_log_file(&stamp(2024, 2, 29));
    assert_eq!(rot.file_name, "2024-02-29.log");
    assert_eq!(rot.date, CalendarDate { year: 2024, month: 2, day: 29 });
}

#[test]
fn retention_window() {
    let f = file_sink(5, Some(7));
    let now = stamp(2024, 1, 5);
    let created = vec![
        now.unix_nanos - 10 * NANOS_PER_DAY,
        now.unix_nanos - 3 * NANOS_PER_DAY,
        now.unix_nanos - 7 * NANOS_PER_DAY,
        now.unix_nanos - 8 * NANOS_PER_DAY,
        now.unix_nanos - 8 * NANOS_PER_DAY + 1,
        now.unix_nanos + 30 * NANOS_PER_DAY,
    ];
    assert_eq!(f.delete_log_file(&now, &created), vec![true, false, false, true, false, false]);
}

#[test]
fn no_retention_keeps_everything() {
    let f = file_sink(5, None);
    let now = stamp(2024, 1, 5);
    let created = vec![now.unix_nanos - 100 * NANOS_PER_DAY];
    assert_eq!(f.delete_log_file(&now, &created), vec![false]);
}

#[test]
fn negative_retention() {
    let f = file_sink(5, Some(-1));
    let now = stamp(2024, 1, 5);
    let created = vec![now.unix_nanos + NANOS_PER_DAY / 2, now.unix_nanos + 2 * NANOS_PER_DAY];
    assert_eq!(f.delete_log_file(&now, &created), vec![true, false]);
}

#[test]
fn stdout_sink() {
    assert!(Stdout::default().color);
    let m = message(5);
    assert_eq!(Stdout { color: false }.output(&m), m.write());
    assert_eq!(Stdout { color: true }.output(&m), m.write_color());
}

fn two_sinks() -> Dispatcher {
    Dispatcher::new(vec![
        OutputMethod::Stdout(Stdout { color: true }),
        OutputMethod::OutputFile(file_sink(5, None)),
    ])
}

#[test]
fn every_sink_gets_every_message_in_order() {
    let mut d = two_sinks();
    assert_eq!(d.sink_count(), 2);
    for (k, day) in [5u8, 5, 6].iter().enumerate() {
        let mut m = message(*day);
        m.path = format!("/item/{k}");
        let renders = d.deliver(&m);
        assert_eq!(renders.len(), 2);
        match &renders[0] {
            Render::Console(line) => assert_eq!(line, &m.write_color()),
            other => panic!("unexpected {other:?}"),
        }
        match &renders[1] {
            Render::File(_, line) => assert_eq!(line, &m.write()),
            other => panic!("unexpected {other:?}"),
        }
    }
}

#[test]
fn failing_console_does_not_stop_file() {
    let mut d = two_sinks();
    let total = 4 * 5;
    let mut file_lines = 0;
    for k in 0..total {
        let mut m = message(if k < 10 { 5 } else { 6 });
        m.other = format!(" n{k}");
        let renders = d.deliver(&m);
        // the console write fails every time
        d.settle(0, None);
        match &renders[1] {
            Render::File(rot, line) => {
                assert_eq!(line, &m.write());
                file_lines += 1;
                assert_eq!(rot.is_some(), k == 10);
                d.settle(1, rot.as_ref().map(|r| r.date));
            }
            other => panic!("unexpected {other:?}"),
        }
    }
    assert_eq!(file_lines, total);
    match &d.sinks[1] {
        OutputMethod::OutputFile(f) => assert_eq!(f.created_at.day, 6),
        _ => panic!("sink order changed"),
    }
}

#[test]
fn failed_rotation_is_retried() {
    let mut d = two_sinks();
    let renders = d.deliver(&message(6));
    assert!(matches!(&renders[1], Render::File(Some(_), _)));
    d.settle(1, None);
    let renders = d.deliver(&message(6));
    assert!(matches!(&renders[1], Render::File(Some(_), _)));
}

fn exchange() -> Exchange {
    Exchange {
        begin: stamp(2024, 1, 5),
        end: stamp(2024, 1, 5).unix_nanos + 12_500_000,
        method: "POST".to_string(),
        raw_path: "/a%20b/%E4%BD%A0".to_string(),
        location: Some("/login%3Fnext%3D1".to_string()),
        status: Some(302),
        ip: "10.0.0.2".to_string(),
        error: Some("bad".to_string()),
        other: Some("note".to_string()),
    }
}

#[test]
fn message_from_exchange() {
    let m = Message::from_exchange(exchange());
    assert_eq!(m.path, "/a b/你 -> /login?next=1");
    assert_eq!(m.other, " Error(bad) note");
    assert_eq!(m.elapsed, 12_500_000);
    assert_eq!(m.status, 302);
    assert_eq!(m.method, "POST");
    assert_eq!(m.ip, "10.0.0.2");
}

#[test]
fn message_from_bare_exchange() {
    let mut x = exchange();
    x.raw_path = "/bad%zz%FF".to_string();
    x.location = None;
    x.status = None;
    x.error = None;
    x.other = None;
    x.end = x.begin.unix_nanos - 5;
    let m = Message::from_exchange(x);
    assert_eq!(m.path, "/bad%zz\u{FFFD}");
    assert_eq!(m.other, "");
    assert_eq!(m.status, 0);
    assert_eq!(m.elapsed, 0);
}

#[test]
fn exchange_pieces() {
    assert_eq!(redirect_path("/a".to_string(), Some("/b".to_string())), "/a -> /b");
    assert_eq!(redirect_path("/a".to_string(), None), "/a");
    assert_eq!(notes(None, Some("x".to_string())), " x");
    assert_eq!(notes(Some("e".to_string()), None), " Error(e)");
    assert_eq!(notes(None, None), "");
    assert_eq!(elapsed_between(10, 3), 0);
    assert_eq!(elapsed_between(3, 10), 7);
    assert_eq!(elapsed_between(0, 1 << 70), u64::MAX);
}

#[test]
fn interleaved_producers_lose_nothing() {
    let producers = 4;
    let per_producer = 5;
    let mut d = two_sinks();
    let mut console_seen = Vec::new();
    let mut file_seen = Vec::new();
    for round in 0..per_producer {
        for p in 0..producers {
            let mut m = message(5);
            m.path = format!("/p{p}/m{round}");
            for (i, r) in d.deliver(&m).iter().enumerate() {
                match r {
                    Render::Console(line) => console_seen.push(line.clone()),
                    Render::File(_, line) => file_seen.push(line.clone()),
                }
                d.settle(i, None);
            }
        }
    }
    assert_eq!(console_seen.len(), producers * per_producer);
    assert_eq!(file_seen.len(), producers * per_producer);
    for p in 0..producers {
        for round in 0..per_producer {
            let tag = format!("/p{p}/m{round} ");
            assert_eq!(file_seen.iter().filter(|l| l.contains(&tag)).count(), 1);
            assert_eq!(console_seen.iter().filter(|l| l.contains(&tag)).count(), 1);
        }
    }
}
