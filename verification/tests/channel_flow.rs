use std::time::Duration;
use std::time::Instant;

use http_bridge::BodyOutcome;
use http_bridge::JsResponse;
use http_bridge::RequestContext;
use http_bridge::RespondError;
use http_bridge::ServerPhase;
use http_bridge::ServerState;
use http_bridge::WaitOutcome;
use http_bridge::prepare_request;
use http_bridge::resolve_outcome;

type ResponseReceiver = tokio::sync::oneshot::Receiver<JsResponse>;

fn runtime() -> tokio::runtime::Runtime {
    tokio::runtime::Builder::new_current_thread()
        .enable_time()
        .build()
        .expect("a current-thread runtime")
}

fn accepted(body: Vec<u8>) -> (RequestContext, ResponseReceiver) {
    prepare_request(
        "GET".to_string(),
        None,
        None,
        Vec::new(),
        BodyOutcome::Collected(body),
        "client".to_string(),
        1024,
        true,
    )
    .ok()
    .expect("a small body with a handler is accepted")
}

async fn wait_with_timeout(rx: ResponseReceiver, timeout_ms: u64) -> WaitOutcome {
    match tokio::time::timeout(Duration::from_millis(timeout_ms), rx).await {
        Ok(Ok(resp)) => WaitOutcome::Responded(resp),
        Ok(Err(_)) => WaitOutcome::Abandoned,
        Err(_) => WaitOutcome::TimedOut,
    }
}

#[test]
fn second_respond_is_rejected_and_first_wins() {
    let rt = runtime();
    let (mut ctx, rx) = accepted(Vec::new());
    assert_eq!(ctx.respond(JsResponse::empty(201)), Ok(()));
    assert_eq!(
        ctx.respond(JsResponse::empty(200)),
        Err(RespondError::AlreadyResponded)
    );
    let got = rt.block_on(rx).expect("the first response is delivered");
    assert_eq!(got.status, 201);
}

#[test]
fn respond_after_receiver_gone_fails_safely() {
    let (mut ctx, rx) = accepted(Vec::new());
    drop(rx);
    assert_eq!(
        ctx.respond(JsResponse::empty(200)),
        Err(RespondError::ChannelClosed)
    );
    assert_eq!(
        ctx.respond(JsResponse::empty(200)),
        Err(RespondError::AlreadyResponded)
    );
}

#[test]
fn silent_handler_yields_504_no_sooner_than_the_timeout() {
    let rt = runtime();
    let (ctx, rx) = accepted(Vec::new());
    let start = Instant::now();
    let outcome = rt.block_on(wait_with_timeout(rx, 50));
    assert!(start.elapsed() >= Duration::from_millis(50));
    assert!(matches!(outcome, WaitOutcome::TimedOut));
    let resp = resolve_outcome(outcome);
    assert_eq!(resp.status, 504);
    assert_eq!(resp.body, Some(b"Request timeout".to_vec()));
    drop(ctx);
}

#[test]
fn slow_handler_times_out_and_its_late_response_goes_nowhere() {
    let rt = runtime();
    let (mut ctx, rx) = accepted(vec![7u8; 10]);
    let (outcome, late) = rt.block_on(async move {
        let handler = tokio::spawn(async move {
            tokio::time::sleep(Duration::from_millis(100)).await;
            ctx.respond(JsResponse::text("late", 200))
        });
        let outcome = wait_with_timeout(rx, 50).await;
        let late = handler.await.expect("the handler task runs to its end");
        (outcome, late)
    });
    assert!(matches!(outcome, WaitOutcome::TimedOut));
    assert_eq!(late, Err(RespondError::ChannelClosed));
    assert_eq!(resolve_outcome(outcome).status, 504);
}

#[test]
fn prompt_handler_response_reaches_the_client_verbatim() {
    let rt = runtime();
    let (mut ctx, rx) = accepted(vec![7u8; 10]);
    let outcome = rt.block_on(async move {
        tokio::spawn(async move {
            let sent = ctx.respond(JsResponse::new(
                201,
                vec![("x-test".to_string(), "1".to_string())],
                Some(b"ok".to_vec()),
            ));
            assert_eq!(sent, Ok(()));
        });
        wait_with_timeout(rx, 50).await
    });
    let resp = resolve_outcome(outcome);
    assert_eq!(resp.status, 201);
    assert_eq!(resp.headers.len(), 1);
    assert_eq!(resp.headers[0].name, "x-test");
    assert_eq!(resp.headers[0].value, "1");
    assert_eq!(resp.body, Some(b"ok".to_vec()));
}

#[test]
fn abandoned_request_yields_500() {
    let rt = runtime();
    let (ctx, rx) = accepted(Vec::new());
    drop(ctx);
    let outcome = rt.block_on(wait_with_timeout(rx, 1000));
    assert!(matches!(outcome, WaitOutcome::Abandoned));
    let resp = resolve_outcome(outcome);
    assert_eq!(resp.status, 500);
    assert_eq!(resp.body, Some(b"Handler did not respond".to_vec()));
}

#[test]
fn in_flight_request_completes_after_close() {
    let rt = runtime();
    let (mut ctx, rx) = accepted(Vec::new());
    let mut state = ServerState::new();
    state.on_bound();
    state.on_accept(16);
    state.close();
    assert!(!state.admits(16));
    assert_eq!(state.in_flight, 1);
    let outcome = rt.block_on(async move {
        tokio::spawn(async move {
            tokio::time::sleep(Duration::from_millis(200)).await;
            let sent = ctx.respond(JsResponse::text("done", 200));
            assert_eq!(sent, Ok(()));
        });
        wait_with_timeout(rx, 1000).await
    });
    let resp = resolve_outcome(outcome);
    assert_eq!(resp.status, 200);
    assert_eq!(resp.body, Some(b"done".to_vec()));
    state.on_connection_done();
    state.on_drained();
    assert_eq!(state.phase, ServerPhase::Stopped);
}
