//! End-to-end runs of the agent loop's state machine, with the host's side
//! (screenshots, plan calls, command runs) played by the test.

use qutebrowser_agent::agent::{agent_start, agent_step, AgentAction, AgentEvent};
use qutebrowser_agent::errors::AgentError;
use qutebrowser_agent::types::{BrowserCommand, BrowserPlan, Session};

fn execute_plan(commands: Vec<&str>) -> BrowserPlan {
    BrowserPlan {
        action: String::from("execute"),
        thought: String::from("keep going"),
        witty_message: String::from("🎭"),
        steps: Some(
            commands
                .into_iter()
                .map(|c| BrowserCommand { command: String::from(c) })
                .collect(),
        ),
    }
}

fn finish_plan(thought: &str) -> BrowserPlan {
    BrowserPlan {
        action: String::from("finish"),
        thought: String::from(thought),
        witty_message: String::from("🎩"),
        steps: None,
    }
}

#[test]
fn first_iteration_executes_navigation_plan() {
    let mut session = Session::new(String::from("s1"));
    let (mut run, action) = agent_start(String::from("go to example.com"));
    assert!(matches!(action, AgentAction::TakeScreenshot));

    // The screenshot taken at loop start reaches the first plan request.
    let action = agent_step(
        &mut run,
        &mut session,
        AgentEvent::Screenshot { image: String::from("shot-1") },
    )
    .unwrap();
    let conversation = match action {
        AgentAction::RequestPlan { conversation } => conversation,
        other => panic!("expected a plan request, got {:?}", other),
    };
    assert_eq!(conversation.len(), 1);
    assert_eq!(conversation[0].parts.len(), 2);
    assert_eq!(
        conversation[0].parts[0].inline_data.as_ref().unwrap().data,
        "shot-1"
    );
    assert_eq!(
        conversation[0].parts[1].text.as_deref(),
        Some("go to example.com")
    );

    // The plan's command goes out with the navigation delay.
    let action = agent_step(
        &mut run,
        &mut session,
        AgentEvent::Plan { plan: execute_plan(vec![":open https://example.com"]) },
    )
    .unwrap();
    match action {
        AgentAction::RunCommand { command, delay_ms } => {
            assert_eq!(command, ":open https://example.com");
            assert_eq!(delay_ms, 3000);
        }
        other => panic!("expected a command, got {:?}", other),
    }

    // After the last command the loop observes again.
    let action = agent_step(&mut run, &mut session, AgentEvent::CommandDone).unwrap();
    assert!(matches!(action, AgentAction::TakeScreenshot));
    assert_eq!(session.messages.len(), 1);
    assert_eq!(session.messages[0].role, "assistant");
    assert_eq!(session.messages[0].content, "Executed plan: keep going");

    // And the next screenshot leads to the next plan request.
    let action = agent_step(
        &mut run,
        &mut session,
        AgentEvent::Screenshot { image: String::from("shot-2") },
    )
    .unwrap();
    assert!(matches!(action, AgentAction::RequestPlan { .. }));
    assert_eq!(session.images.len(), 2);
}

#[test]
fn finish_on_first_plan_returns_thought_immediately() {
    let mut session = Session::new(String::from("s1"));
    let (mut run, _) = agent_start(String::from("do nothing"));
    agent_step(
        &mut run,
        &mut session,
        AgentEvent::Screenshot { image: String::from("shot-1") },
    )
    .unwrap();
    let action = agent_step(
        &mut run,
        &mut session,
        AgentEvent::Plan { plan: finish_plan("Done") },
    )
    .unwrap();
    match action {
        AgentAction::Finish { result } => assert_eq!(result, "Done"),
        other => panic!("expected the loop to finish, got {:?}", other),
    }
    // No command ran and no second screenshot was taken.
    assert_eq!(session.images.len(), 1);
    assert_eq!(session.messages.len(), 0);
}

#[test]
fn exhaustion_after_exactly_ten_plan_calls() {
    let mut session = Session::new(String::from("s1"));
    let (mut run, action) = agent_start(String::from("never finishes"));
    assert!(matches!(action, AgentAction::TakeScreenshot));
    let mut plan_calls = 0u32;
    let mut shot = 0u32;
    let mut action = agent_step(
        &mut run,
        &mut session,
        AgentEvent::Screenshot { image: format!("shot-{shot}") },
    )
    .unwrap();
    let result = loop {
        match action {
            AgentAction::RequestPlan { .. } => {
                plan_calls += 1;
                action = agent_step(
                    &mut run,
                    &mut session,
                    AgentEvent::Plan { plan: execute_plan(vec![":hint"]) },
                )
                .unwrap();
            }
            AgentAction::RunCommand { delay_ms, .. } => {
                assert_eq!(delay_ms, 1000);
                action = agent_step(&mut run, &mut session, AgentEvent::CommandDone).unwrap();
            }
            AgentAction::TakeScreenshot => {
                shot += 1;
                action = agent_step(
                    &mut run,
                    &mut session,
                    AgentEvent::Screenshot { image: format!("shot-{shot}") },
                )
                .unwrap();
            }
            AgentAction::Finish { result } => break result,
        }
    };
    assert_eq!(result, "Maximum steps reached. Task may be incomplete.");
    // Exactly ten plan calls were made, not eleven.
    assert_eq!(plan_calls, 10);
}

#[test]
fn invalid_command_in_plan_aborts_the_run() {
    let mut session = Session::new(String::from("s1"));
    let (mut run, _) = agent_start(String::from("task"));
    agent_step(
        &mut run,
        &mut session,
        AgentEvent::Screenshot { image: String::from("shot-1") },
    )
    .unwrap();
    let r = agent_step(
        &mut run,
        &mut session,
        AgentEvent::Plan { plan: execute_plan(vec!["open missing-prefix"]) },
    );
    match r {
        Err(AgentError::Validation { command }) => assert_eq!(command, "open missing-prefix"),
        other => panic!("expected a validation error, got {:?}", other),
    }
}

#[test]
fn commands_run_in_order_within_one_plan() {
    let mut session = Session::new(String::from("s1"));
    let (mut run, _) = agent_start(String::from("task"));
    agent_step(
        &mut run,
        &mut session,
        AgentEvent::Screenshot { image: String::from("shot-1") },
    )
    .unwrap();
    let action = agent_step(
        &mut run,
        &mut session,
        AgentEvent::Plan { plan: execute_plan(vec![":open https://a", ":hint", ":back"]) },
    )
    .unwrap();
    let mut seen = Vec::new();
    let mut action = action;
    loop {
        match action {
            AgentAction::RunCommand { command, delay_ms } => {
                seen.push((command, delay_ms));
                action = agent_step(&mut run, &mut session, AgentEvent::CommandDone).unwrap();
            }
            AgentAction::TakeScreenshot => break,
            other => panic!("unexpected action {:?}", other),
        }
    }
    assert_eq!(seen, vec![
        (String::from(":open https://a"), 3000),
        (String::from(":hint"), 1000),
        (String::from(":back"), 3000),
    ]);
}
