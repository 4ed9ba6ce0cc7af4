use dc::report::{Line, Piece, Tone};
use dc::session::{
    end_report, offer_parsed_report, progress_report, relaunch, session_result, Command, DescriptionKind, EndCause, Flow, Outcome,
    Relaunch, Repeater, Session, SessionError, SessionEvent, Step,
};

fn line(text: &str, tone: Tone) -> Line {
    Line { pieces: vec![Piece { text: text.to_string(), tone }] }
}

fn received(sender: &str, description: &str) -> SessionEvent {
    SessionEvent::Received { sender: sender.to_string(), description: description.to_string() }
}

fn run(s: &mut Session, events: Vec<SessionEvent>) -> Vec<Command> {
    events.into_iter().map(|e| s.on_event(e)).collect()
}

#[test]
fn slave_session_answers_the_offer_sender() {
    let (mut s, first) = Session::start(Flow::Slave, "");
    assert_eq!(first, Command::Run(Step::RegisterCodecs));
    let cmds = run(
        &mut s,
        vec![
            SessionEvent::Completed,
            SessionEvent::Completed,
            SessionEvent::Completed,
            SessionEvent::Completed,
            SessionEvent::Completed,
            received("USER", "{offer}"),
            SessionEvent::Completed,
            SessionEvent::Completed,
            SessionEvent::Completed,
            SessionEvent::LocalReady("{answer}".to_string()),
            SessionEvent::Completed,
            SessionEvent::Ended(EndCause::ChannelDone),
            SessionEvent::Completed,
        ],
    );
    assert_eq!(
        cmds,
        vec![
            Command::Run(Step::FindRuntime),
            Command::Run(Step::RegisterInterceptors),
            Command::Run(Step::BuildPeerConnection),
            Command::Run(Step::ConnectSignaling),
            Command::Run(Step::AwaitRemoteDescription),
            Command::ApplyRemote { description: "{offer}".to_string() },
            Command::Run(Step::CreateAnswer),
            Command::Run(Step::AwaitGathering),
            Command::Run(Step::ReadLocalDescription),
            Command::SendLocal {
                to: "USER".to_string(),
                kind: DescriptionKind::Answer,
                sdp: "{answer}".to_string(),
            },
            Command::Run(Step::AwaitEnd),
            Command::Run(Step::ClosePeerConnection),
            Command::Finish(Outcome::Closed(EndCause::ChannelDone)),
        ]
    );
    assert_eq!(s.outcome(), Some(Outcome::Closed(EndCause::ChannelDone)));
    assert_eq!(s.on_event(SessionEvent::Completed), Command::Finish(Outcome::Closed(EndCause::ChannelDone)));
}

#[test]
fn answering_client_installs_interrupt_handler_only_first_time() {
    let (mut s, _) = Session::start(Flow::Answerer { restart: false }, "");
    assert_eq!(s.on_event(SessionEvent::Completed), Command::Run(Step::InstallInterruptHandler));
    let (mut s, _) = Session::start(Flow::Answerer { restart: true }, "");
    assert_eq!(s.on_event(SessionEvent::Completed), Command::Run(Step::FindRuntime));
}

#[test]
fn offering_client_sends_offer_to_target_then_applies_answer() {
    let (mut s, _) = Session::start(Flow::Offerer, "ROBOT");
    let cmds = run(
        &mut s,
        vec![
            SessionEvent::Completed,
            SessionEvent::Completed,
            SessionEvent::Completed,
            SessionEvent::Completed,
            SessionEvent::Completed,
            SessionEvent::Completed,
            SessionEvent::Completed,
            SessionEvent::Completed,
            SessionEvent::Completed,
            SessionEvent::LocalReady("{offer}".to_string()),
            SessionEvent::Completed,
            received("ROBOT", "{answer}"),
            SessionEvent::Completed,
            SessionEvent::Ended(EndCause::Interrupted),
            SessionEvent::Completed,
        ],
    );
    assert_eq!(cmds[0], Command::Run(Step::InstallInterruptHandler));
    assert_eq!(cmds[4], Command::Run(Step::OpenDataChannel));
    assert_eq!(cmds[6], Command::Run(Step::CreateOffer));
    assert_eq!(
        cmds[9],
        Command::SendLocal { to: "ROBOT".to_string(), kind: DescriptionKind::Offer, sdp: "{offer}".to_string() }
    );
    assert_eq!(cmds[10], Command::Run(Step::AwaitRemoteDescription));
    assert_eq!(cmds[11], Command::ApplyRemote { description: "{answer}".to_string() });
    assert_eq!(cmds[13], Command::Run(Step::ClosePeerConnection));
    assert_eq!(cmds[14], Command::Finish(Outcome::Closed(EndCause::Interrupted)));
}

#[test]
fn camera_adds_its_track_and_forwards_after_answering() {
    let (mut s, _) = Session::start(Flow::Camera, "");
    let cmds = run(&mut s, vec![SessionEvent::Completed; 6]);
    assert_eq!(
        cmds,
        vec![
            Command::Run(Step::RegisterInterceptors),
            Command::Run(Step::FindRuntime),
            Command::Run(Step::BuildPeerConnection),
            Command::Run(Step::AddVideoTrack),
            Command::Run(Step::ConnectSignaling),
            Command::Run(Step::AwaitRemoteDescription),
        ]
    );
    let cmds = run(
        &mut s,
        vec![
            received("USER", "o"),
            SessionEvent::Completed,
            SessionEvent::Completed,
            SessionEvent::Completed,
            SessionEvent::LocalReady("a".to_string()),
            SessionEvent::Completed,
            SessionEvent::Completed,
            SessionEvent::Ended(EndCause::ForwardingEnded),
            SessionEvent::Completed,
        ],
    );
    assert_eq!(cmds[5], Command::Run(Step::StartForwarding));
    assert_eq!(cmds[6], Command::Run(Step::AwaitEnd));
    assert_eq!(cmds[8], Command::Finish(Outcome::Closed(EndCause::ForwardingEnded)));
}

#[test]
fn failures_end_the_session_with_their_error() {
    let (mut s, _) = Session::start(Flow::Waiter, "");
    assert_eq!(s.on_event(SessionEvent::Completed), Command::Run(Step::FindRuntime));
    assert_eq!(s.on_event(SessionEvent::Missing), Command::Finish(Outcome::Failed(SessionError::NoRuntime)));

    let (mut s, _) = Session::start(Flow::Waiter, "");
    assert_eq!(s.on_event(SessionEvent::Failed), Command::Finish(Outcome::Failed(SessionError::StepFailed(Step::RegisterCodecs))));

    let (mut s, _) = Session::start(Flow::Slave, "");
    run(&mut s, vec![SessionEvent::Completed; 5]);
    run(&mut s, vec![received("A", "o"), SessionEvent::Completed, SessionEvent::Completed, SessionEvent::Completed]);
    assert_eq!(s.on_event(SessionEvent::Missing), Command::Finish(Outcome::Failed(SessionError::NoLocalDescription)));
}

#[test]
fn unexpected_reports_end_the_session() {
    let (mut s, _) = Session::start(Flow::Slave, "");
    assert_eq!(
        s.on_event(received("A", "o")),
        Command::Finish(Outcome::Failed(SessionError::UnexpectedEvent(Step::RegisterCodecs)))
    );
    let (mut s, _) = Session::start(Flow::Slave, "");
    run(&mut s, vec![SessionEvent::Completed; 5]);
    assert_eq!(
        s.on_event(SessionEvent::Completed),
        Command::Finish(Outcome::Failed(SessionError::UnexpectedEvent(Step::AwaitRemoteDescription)))
    );
}

#[test]
fn only_the_camera_waits_for_forwarding() {
    let (mut s, _) = Session::start(Flow::Slave, "");
    run(&mut s, vec![SessionEvent::Completed; 5]);
    run(&mut s, vec![received("A", "o"), SessionEvent::Completed, SessionEvent::Completed, SessionEvent::Completed]);
    run(&mut s, vec![SessionEvent::LocalReady("a".to_string()), SessionEvent::Completed]);
    assert_eq!(
        s.on_event(SessionEvent::Ended(EndCause::ForwardingEnded)),
        Command::Finish(Outcome::Failed(SessionError::UnexpectedEvent(Step::AwaitEnd)))
    );
}

#[test]
fn every_session_finishes_within_fifteen_reports() {
    for flow in [Flow::Answerer { restart: false }, Flow::Offerer, Flow::Slave, Flow::Waiter, Flow::Camera] {
        let (mut s, _) = Session::start(flow, "T");
        for _ in 0..15 {
            s.on_event(SessionEvent::Completed);
        }
        assert!(s.outcome().is_some());
    }
}

#[test]
fn end_lines_per_flow() {
    assert_eq!(
        end_report(Flow::Answerer { restart: false }, EndCause::ChannelDone),
        Some(line("peer connection failed or data channel closed.", Tone::Plain))
    );
    assert_eq!(end_report(Flow::Slave, EndCause::ChannelDone), Some(line("data channel closed", Tone::BoldRed)));
    assert_eq!(end_report(Flow::Offerer, EndCause::Interrupted), Some(line("", Tone::Plain)));
    assert_eq!(end_report(Flow::Camera, EndCause::Interrupted), Some(line("CTRL+C from user", Tone::BoldYellow)));
    assert_eq!(end_report(Flow::Camera, EndCause::ForwardingEnded), Some(line("RTP forwarding ended", Tone::Bold)));
    assert_eq!(end_report(Flow::Waiter, EndCause::ForwardingEnded), None);
}

#[test]
fn only_interrupt_stops_a_repeating_program() {
    assert_eq!(session_result(Outcome::Closed(EndCause::Interrupted)), Ok(false));
    assert_eq!(session_result(Outcome::Closed(EndCause::ChannelDone)), Ok(true));
    assert_eq!(session_result(Outcome::Closed(EndCause::ForwardingEnded)), Ok(true));
    assert_eq!(session_result(Outcome::Failed(SessionError::NoRuntime)), Err(SessionError::NoRuntime));
}

#[test]
fn relaunch_decisions() {
    assert_eq!(
        relaunch(Repeater::Slave, Ok(false), ""),
        Relaunch { lines: vec![line("closing...", Tone::BoldRed)], pause_ms: 3000, again: false }
    );
    assert_eq!(
        relaunch(Repeater::Waiter, Ok(true), ""),
        Relaunch { lines: vec![line("restarting...", Tone::BoldYellow)], pause_ms: 500, again: true }
    );
    assert_eq!(
        relaunch(Repeater::Slave, Err(()), "boom"),
        Relaunch {
            lines: vec![line("error: boom", Tone::Plain), line("restarting...", Tone::BoldBrightRed)],
            pause_ms: 500,
            again: true
        }
    );
    assert_eq!(
        relaunch(Repeater::Camera, Err(()), "boom"),
        Relaunch {
            lines: vec![line("boom", Tone::BoldYellow), line("restarting...", Tone::Yellow)],
            pause_ms: 500,
            again: true
        }
    );
    assert_eq!(relaunch(Repeater::Camera, Ok(true), "").lines, vec![line("restarting...", Tone::Yellow)]);
}

#[test]
fn progress_lines_per_flow() {
    assert_eq!(progress_report(Flow::Offerer, Step::ConnectSignaling, ""), vec![]);
    assert_eq!(progress_report(Flow::Slave, Step::ConnectSignaling, ""), vec![line("connection ready!", Tone::BoldBlue)]);
    assert_eq!(progress_report(Flow::Waiter, Step::ConnectSignaling, ""), vec![line("ready!", Tone::BoldBlue)]);
    assert_eq!(
        progress_report(Flow::Offerer, Step::AwaitRemoteDescription, "ROBOT"),
        vec![line("answer received from ROBOT", Tone::Plain)]
    );
    assert_eq!(
        progress_report(Flow::Camera, Step::AwaitRemoteDescription, "USER"),
        vec![line("offer received from USER", Tone::Plain)]
    );
    assert_eq!(progress_report(Flow::Camera, Step::ApplyRemoteDescription, ""), vec![line("creating answer...", Tone::Plain)]);
    assert_eq!(
        progress_report(Flow::Offerer, Step::SendLocalDescription, "ROBOT"),
        vec![line("sent offer to ROBOT, waiting for answer...", Tone::Plain)]
    );
    assert_eq!(
        progress_report(Flow::Waiter, Step::SendLocalDescription, "U"),
        vec![line("sent answer to U", Tone::Plain), line("press ctrl-c to stop", Tone::Plain)]
    );
    assert_eq!(progress_report(Flow::Camera, Step::SendLocalDescription, "U"), vec![line("answer sent to U", Tone::Plain)]);
    assert_eq!(progress_report(Flow::Slave, Step::AwaitGathering, "U"), vec![]);
    assert_eq!(
        offer_parsed_report(Flow::Slave),
        Some(line("offer sdp parsed, setting remote description...", Tone::Plain))
    );
    assert_eq!(offer_parsed_report(Flow::Camera), None);
    assert_eq!(offer_parsed_report(Flow::Offerer), None);
}

#[test]
fn restarted_answerer_is_not_ended_by_ctrl_c() {
    for (restart, expected) in [
        (false, Command::Run(Step::ClosePeerConnection)),
        (true, Command::Finish(Outcome::Failed(SessionError::UnexpectedEvent(Step::AwaitEnd)))),
    ] {
        let (mut s, _) = Session::start(Flow::Answerer { restart }, "");
        let setup = if restart { 5 } else { 6 };
        run(&mut s, vec![SessionEvent::Completed; setup]);
        run(&mut s, vec![received("A", "o"), SessionEvent::Completed, SessionEvent::Completed, SessionEvent::Completed]);
        run(&mut s, vec![SessionEvent::LocalReady("a".to_string()), SessionEvent::Completed]);
        assert_eq!(s.on_event(SessionEvent::Ended(EndCause::Interrupted)), expected);
    }
    let (mut s, _) = Session::start(Flow::Answerer { restart: true }, "");
    run(&mut s, vec![SessionEvent::Completed; 5]);
    run(&mut s, vec![received("A", "o"), SessionEvent::Completed, SessionEvent::Completed, SessionEvent::Completed]);
    run(&mut s, vec![SessionEvent::LocalReady("a".to_string()), SessionEvent::Completed]);
    assert_eq!(s.on_event(SessionEvent::Ended(EndCause::ChannelDone)), Command::Run(Step::ClosePeerConnection));
    assert_eq!(s.on_event(SessionEvent::Completed), Command::Finish(Outcome::Closed(EndCause::ChannelDone)));
}
