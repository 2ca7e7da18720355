use std::sync::mpsc;
use vox::gui::{
    clear_module_guest, event_data, extension_load_error, frame_wait_micros, get_module_guest, ide_action,
    ide_outcome, initial_render, interval_period_ms, is_stop, latest_render, platform_action, set_module_guest,
    store_guest_handle, take_guest_handle, timeout_delay_ms, timer_payload, wake_token, with_guest_handle,
    GuestAction, GuestEvent, GuestHandle, ModuleGuests, NativeGuiPlatform, PushReceiver, ANIM_FRAME_DELAY_MS,
    EVENT_ID_ANIM_FRAME, EVENT_ID_GAME_LOOP, EVENT_ID_TIMER, GAME_LOOP_FRAME_MICROS,
};
use vox::handles::HandleTable;

type Render = Result<Vec<u8>, String>;

fn guest() -> (GuestHandle, mpsc::Receiver<GuestEvent>, mpsc::Sender<Render>) {
    let (event_tx, event_rx) = mpsc::channel::<GuestEvent>();
    let (render_tx, render_rx) = mpsc::channel::<Render>();
    (GuestHandle::new(event_tx, render_rx), event_rx, render_tx)
}

#[test]
fn send_event_delivers_and_returns_the_render() {
    let (mut h, events, renders) = guest();
    renders.send(Ok(vec![1, 2])).unwrap();
    assert_eq!(h.send_event(7, "{\"x\":1}"), Ok(vec![1, 2]));
    match events.try_recv().unwrap() {
        GuestEvent::Ide { handler_id, payload } => {
            assert_eq!(handler_id, 7);
            assert_eq!(payload, "{\"x\":1}");
        }
        _ => panic!("expected an IDE event"),
    }
}

#[test]
fn send_event_reports_guest_error() {
    let (mut h, _events, renders) = guest();
    renders.send(Err("boom".to_string())).unwrap();
    assert_eq!(h.send_event(1, ""), Err("guest event failed: boom".to_string()));
}

#[test]
fn send_event_to_stopped_guest() {
    let (mut h, events, _renders) = guest();
    drop(events);
    assert_eq!(h.send_event(1, ""), Err("guest VM stopped".to_string()));
    let (mut h2, _events2, renders2) = guest();
    drop(renders2);
    assert_eq!(h2.send_event(1, ""), Err("guest VM stopped".to_string()));
}

#[test]
fn dropping_the_handle_shuts_the_guest_down() {
    let (mut h, events, _renders) = guest();
    h.shutdown();
    drop(h);
    assert!(matches!(events.try_recv(), Ok(GuestEvent::Shutdown)));
    assert!(matches!(events.try_recv(), Ok(GuestEvent::Shutdown)));
}

#[test]
fn ide_outcomes() {
    assert_eq!(ide_outcome(None), Err("guest VM stopped".to_string()));
    assert_eq!(ide_outcome(Some(Ok(vec![3]))), Ok(vec![3]));
    assert_eq!(ide_outcome(Some(Err("e".to_string()))), Err("guest event failed: e".to_string()));
}

#[test]
fn poll_keeps_the_latest_nonempty_render() {
    let (tx, rx) = mpsc::channel::<Vec<u8>>();
    let push = PushReceiver::new(rx);
    assert_eq!(push.poll(), None);
    tx.send(vec![1]).unwrap();
    tx.send(vec![]).unwrap();
    tx.send(vec![2, 2]).unwrap();
    tx.send(vec![]).unwrap();
    assert_eq!(push.poll(), Some(vec![2, 2]));
    assert_eq!(push.poll(), None);
    tx.send(vec![]).unwrap();
    assert_eq!(push.poll(), None);
}

#[test]
fn latest_render_of_a_list() {
    assert_eq!(latest_render(vec![]), None);
    assert_eq!(latest_render(vec![vec![1], vec![2], vec![]]), Some(vec![2]));
    assert_eq!(latest_render(vec![vec![], vec![]]), None);
}

#[test]
fn guest_actions() {
    assert!(matches!(ide_action(Ok(vec![1])), GuestAction::Reply(b) if b == vec![1]));
    assert!(matches!(ide_action(Err("x".to_string())), GuestAction::ReplyErrorAndStop(e) if e == "x"));
    assert!(matches!(platform_action(Ok(vec![4])), GuestAction::Push(b) if b == vec![4]));
    assert!(matches!(platform_action(Ok(vec![])), GuestAction::Nothing));
    assert!(matches!(
        platform_action(Err("bad".to_string())),
        GuestAction::ReportAndStop(m) if m == "guest VM error on platform event: bad"
    ));
    assert!(is_stop(&GuestAction::ReplyErrorAndStop(String::new())));
    assert!(is_stop(&GuestAction::ReportAndStop(String::new())));
    assert!(!is_stop(&GuestAction::Reply(vec![])));
    assert!(!is_stop(&GuestAction::Push(vec![1])));
    assert!(!is_stop(&GuestAction::Nothing));
}

#[test]
fn event_data_layout() {
    assert_eq!(event_data(1, "ab"), vec![1, 0, 0, 0, b'a', b'b']);
    assert_eq!(event_data(-1, ""), vec![0xff, 0xff, 0xff, 0xff]);
    assert_eq!(event_data(0x01020304, "é"), vec![4, 3, 2, 1, 0xc3, 0xa9]);
}

#[test]
fn wake_tokens() {
    assert_eq!(wake_token(&vec![9, 4]), Ok(9));
    assert_eq!(wake_token(&vec![]), Err("Main fiber not waiting for events".to_string()));
}

#[test]
fn initial_renders() {
    assert_eq!(initial_render(Ok(Ok(vec![5]))), Ok(vec![5]));
    assert_eq!(initial_render(Ok(Err("no main".to_string()))), Err("guest init failed: no main".to_string()));
    assert_eq!(initial_render(Err("disconnected".to_string())), Err("guest thread died: disconnected".to_string()));
}

#[test]
fn extension_errors() {
    assert_eq!(extension_load_error("gfx", "missing"), "failed to load extension 'gfx': missing");
}

#[test]
fn timer_payloads_and_delays() {
    assert_eq!(timer_payload(12), "{\"Id\":12}");
    assert_eq!(timer_payload(-3), "{\"Id\":-3}");
    assert_eq!(timeout_delay_ms(-5), 0);
    assert_eq!(timeout_delay_ms(250), 250);
    assert_eq!(interval_period_ms(0), 1);
    assert_eq!(interval_period_ms(-9), 1);
    assert_eq!(interval_period_ms(40), 40);
    assert_eq!(ANIM_FRAME_DELAY_MS, 16);
    assert_eq!((EVENT_ID_TIMER, EVENT_ID_ANIM_FRAME, EVENT_ID_GAME_LOOP), (-1, -4, -5));
}

#[test]
fn game_loop_frame_wait() {
    assert_eq!(GAME_LOOP_FRAME_MICROS, 16_667);
    assert_eq!(frame_wait_micros(0), Some(16_667));
    assert_eq!(frame_wait_micros(10_000), Some(6_667));
    assert_eq!(frame_wait_micros(16_667), None);
    assert_eq!(frame_wait_micros(40_000), None);
}

#[test]
fn timers_register_and_cancel() {
    let (event_tx, _event_rx) = mpsc::channel::<GuestEvent>();
    let mut p = NativeGuiPlatform::new(event_tx);
    let (a_tx, a_rx) = mpsc::channel::<()>();
    p.register(5, a_tx);
    assert!(p.cancel(5));
    assert_eq!(a_rx.try_recv(), Ok(()));
    assert!(!p.cancel(5));
    assert!(!p.cancel(6));
}

#[test]
fn registering_an_id_again_stops_the_old_timer() {
    let (event_tx, event_rx) = mpsc::channel::<GuestEvent>();
    let mut p = NativeGuiPlatform::new(event_tx);
    let (a_tx, a_rx) = mpsc::channel::<()>();
    let (b_tx, b_rx) = mpsc::channel::<()>();
    p.register(1, a_tx);
    p.register(1, b_tx);
    assert_eq!(a_rx.try_recv(), Err(mpsc::TryRecvError::Disconnected));
    assert!(p.cancel(1));
    assert_eq!(b_rx.try_recv(), Ok(()));
    p.event_sender().send(GuestEvent::Platform { handler_id: -1, payload: "{}".to_string() }).unwrap();
    assert!(matches!(event_rx.try_recv(), Ok(GuestEvent::Platform { handler_id: -1, .. })));
}

#[test]
fn guest_handle_table() {
    let mut handles: HandleTable<GuestHandle> = HandleTable::new();
    let (h0, ev0, r0) = guest();
    let (h1, _ev1, _r1) = guest();
    assert_eq!(store_guest_handle(&mut handles, h0), 0);
    assert_eq!(store_guest_handle(&mut handles, h1), 1);
    r0.send(Ok(vec![8])).unwrap();
    assert_eq!(with_guest_handle(&mut handles, 0, |h: &mut GuestHandle| h.send_event(2, "x")), Some(Ok(vec![8])));
    assert!(matches!(ev0.try_recv(), Ok(GuestEvent::Ide { handler_id: 2, .. })));
    assert!(with_guest_handle(&mut handles, 7, |_h: &mut GuestHandle| ()).is_none());
    let taken = take_guest_handle(&mut handles, 0);
    assert!(taken.is_some());
    assert!(take_guest_handle(&mut handles, 0).is_none());
    drop(taken);
    assert!(matches!(ev0.try_recv(), Ok(GuestEvent::Shutdown)));
    let (h2, _ev2, _r2) = guest();
    assert_eq!(store_guest_handle(&mut handles, h2), 0);
}

#[test]
fn module_guest_table() {
    let mut m = ModuleGuests::new();
    assert_eq!(get_module_guest(&m, 3), None);
    set_module_guest(&mut m, 3, 10);
    set_module_guest(&mut m, 1, 11);
    assert_eq!(get_module_guest(&m, 3), Some(10));
    assert_eq!(get_module_guest(&m, 1), Some(11));
    assert_eq!(get_module_guest(&m, 0), None);
    assert_eq!(get_module_guest(&m, -1), None);
    set_module_guest(&mut m, 3, 12);
    assert_eq!(get_module_guest(&m, 3), Some(12));
    clear_module_guest(&mut m, 3);
    assert_eq!(get_module_guest(&m, 3), None);
    assert_eq!(get_module_guest(&m, 1), Some(11));
    clear_module_guest(&mut m, 50);
    assert_eq!(get_module_guest(&m, 1), Some(11));
}
