use repodeploy::command::bare_dir_name;
use repodeploy::command::transfer_target;
use repodeploy::orchestrator::advance;
use repodeploy::orchestrator::exit_code;
use repodeploy::orchestrator::next_action;
use repodeploy::orchestrator::pending_step;
use repodeploy::orchestrator::start;
use repodeploy::orchestrator::Action;
use repodeploy::orchestrator::DeployError;
use repodeploy::orchestrator::Phase;
use repodeploy::orchestrator::Step;
use repodeploy::request::DeploymentRequest;

fn myapp_request() -> DeploymentRequest {
    DeploymentRequest::new("myapp".to_string(), "myhost".to_string())
}

#[test]
fn default_remote_is_origin() {
    let req = myapp_request();
    assert_eq!(req.project, "myapp");
    assert_eq!(req.server, "myhost");
    assert_eq!(req.remote, "origin");
}

#[test]
fn current_dir_is_refused_before_any_step() {
    let req = DeploymentRequest::new(".".to_string(), "myhost".to_string());
    let phase = start(&req);
    assert_eq!(phase, Phase::Failed(DeployError::Usage));
    assert_eq!(next_action(&phase, &req), None);
    assert_eq!(pending_step(&phase), None);
    assert_eq!(exit_code(&phase), 1);
}

#[test]
fn dot_prefixed_project_is_not_refused() {
    let req = DeploymentRequest::new(".hidden".to_string(), "myhost".to_string());
    assert_eq!(start(&req), Phase::AtClone);
}

#[test]
fn successful_run_executes_four_steps_in_order() {
    let req = myapp_request();
    let mut phase = start(&req);
    assert_eq!(phase, Phase::AtClone);
    assert_eq!(pending_step(&phase), Some(Step::BareClone));

    let clone_action = next_action(&phase, &req).unwrap();
    assert_eq!(
        clone_action,
        Action::RunCommand(vec![
            "git".to_string(),
            "clone".to_string(),
            "--bare".to_string(),
            "myapp".to_string(),
            "myapp.git".to_string(),
        ])
    );
    phase = advance(phase, true);
    assert_eq!(phase, Phase::AtTransfer);
    assert_eq!(pending_step(&phase), Some(Step::Transfer));

    let transfer_action = next_action(&phase, &req).unwrap();
    assert_eq!(
        transfer_action,
        Action::RunCommand(vec![
            "scp".to_string(),
            "-r".to_string(),
            "myapp.git".to_string(),
            "myhost:myapp.git".to_string(),
        ])
    );
    phase = advance(phase, true);
    assert_eq!(phase, Phase::AtCleanup);
    assert_eq!(pending_step(&phase), Some(Step::Cleanup));

    let cleanup_action = next_action(&phase, &req).unwrap();
    assert_eq!(cleanup_action, Action::RemoveDirectory("myapp.git".to_string()));
    phase = advance(phase, true);
    assert_eq!(phase, Phase::AtPush);
    assert_eq!(pending_step(&phase), Some(Step::Push));

    let push_action = next_action(&phase, &req).unwrap();
    assert_eq!(
        push_action,
        Action::RunCommand(vec![
            "sh".to_string(),
            "-c".to_string(),
            "cd origin && git remote add myapp myhost:myapp.git \
             && git push --set-upstream origin master"
                .to_string(),
        ])
    );
    phase = advance(phase, true);
    assert_eq!(phase, Phase::Done);
    assert_eq!(next_action(&phase, &req), None);
    assert_eq!(exit_code(&phase), 0);
}

#[test]
fn clone_failure_stops_the_run_at_once() {
    let req = myapp_request();
    let mut phase = start(&req);
    assert!(next_action(&phase, &req).is_some());
    phase = advance(phase, false);
    assert_eq!(phase, Phase::Failed(DeployError::CloneFailed));
    assert_eq!(next_action(&phase, &req), None);
    assert_eq!(pending_step(&phase), None);
    assert_eq!(exit_code(&phase), 1);
}

#[test]
fn transfer_failure_never_reaches_cleanup() {
    let req = myapp_request();
    let mut phase = start(&req);
    let outcomes = [true, false];
    let mut attempted: Vec<Step> = Vec::new();
    let mut removals: u32 = 0;
    for ok in outcomes {
        let step = pending_step(&phase).unwrap();
        attempted.push(step);
        if let Some(Action::RemoveDirectory(_)) = next_action(&phase, &req) {
            removals += 1;
        }
        phase = advance(phase, ok);
    }
    assert_eq!(attempted, vec![Step::BareClone, Step::Transfer]);
    assert_eq!(removals, 0);
    assert_eq!(phase, Phase::Failed(DeployError::TransferFailed));
    assert_eq!(next_action(&phase, &req), None);
    assert_eq!(exit_code(&phase), 1);
}

#[test]
fn cleanup_failure_ends_with_cleanup_error() {
    let req = myapp_request();
    let mut phase = start(&req);
    phase = advance(phase, true);
    phase = advance(phase, true);
    phase = advance(phase, false);
    assert_eq!(phase, Phase::Failed(DeployError::CleanupFailed));
    assert_eq!(exit_code(&phase), 1);
}

#[test]
fn push_failure_ends_with_push_error() {
    let req = myapp_request();
    let mut phase = start(&req);
    phase = advance(phase, true);
    phase = advance(phase, true);
    phase = advance(phase, true);
    phase = advance(phase, false);
    assert_eq!(phase, Phase::Failed(DeployError::PushFailed));
    assert_eq!(exit_code(&phase), 1);
}

#[test]
fn custom_remote_changes_only_the_push_step() {
    let with_origin = myapp_request();
    let with_custom = DeploymentRequest::with_remote(
        "myapp".to_string(),
        "myhost".to_string(),
        "customremote".to_string(),
    );

    let clone_phase = Phase::AtClone;
    assert_eq!(
        next_action(&clone_phase, &with_origin),
        next_action(&clone_phase, &with_custom)
    );
    let transfer_phase = Phase::AtTransfer;
    assert_eq!(
        next_action(&transfer_phase, &with_origin),
        next_action(&transfer_phase, &with_custom)
    );
    let cleanup_phase = Phase::AtCleanup;
    assert_eq!(
        next_action(&cleanup_phase, &with_origin),
        next_action(&cleanup_phase, &with_custom)
    );

    let push_phase = Phase::AtPush;
    let push_action = next_action(&push_phase, &with_custom).unwrap();
    assert_eq!(
        push_action,
        Action::RunCommand(vec![
            "sh".to_string(),
            "-c".to_string(),
            "cd customremote && git remote add myapp myhost:myapp.git \
             && git push --set-upstream customremote master"
                .to_string(),
        ])
    );
}

#[test]
fn bare_dir_name_appends_git_suffix() {
    assert_eq!(bare_dir_name("myapp"), "myapp.git");
    assert_eq!(bare_dir_name(""), ".git");
}

#[test]
fn transfer_target_joins_server_and_bare_dir() {
    assert_eq!(transfer_target("myapp", "myhost"), "myhost:myapp.git");
    assert_eq!(transfer_target("a", "user@host"), "user@host:a.git");
}

#[test]
fn each_error_has_its_own_diagnostic() {
    assert_eq!(
        DeployError::Usage.message(),
        "Error: Use this tool from the parent directory."
    );
    assert_eq!(
        DeployError::CloneFailed.message(),
        "Error: Failed to clone repository."
    );
    assert_eq!(
        DeployError::TransferFailed.message(),
        "Error: Failed to copy repository to server."
    );
    assert_eq!(
        DeployError::CleanupFailed.message(),
        "Error: Failed to remove local repository"
    );
    assert_eq!(
        DeployError::PushFailed.message(),
        "Error: Failed to add remote origin or push to server."
    );
}

#[test]
fn terminal_phases_absorb_every_outcome() {
    let done = advance(Phase::Done, false);
    assert_eq!(done, Phase::Done);
    let failed = advance(Phase::Failed(DeployError::CloneFailed), true);
    assert_eq!(failed, Phase::Failed(DeployError::CloneFailed));
}
