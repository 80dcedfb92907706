use pulse::agent::{
    activate_agent, add_agent_budget, create_ai_agent, create_ai_agent_with_defaults,
    deactivate_agent, decrease_agent_budget, toggle_auto_purchase, update_agent_config,
    update_ai_agent, ActivateAgent, AddAgentBudget, CreateAIAgent, DeactivateAgent,
    DecreaseAgentBudget, ToggleAutoPurchase, UpdateAIAgent, UpdateAgentConfig,
};
use pulse::error::{ErrorKind, TixError};
use pulse::identity::Identity;
use pulse::state::AIAgent;

fn id(n: u8) -> Identity {
    Identity::new([n; 32])
}

fn owner() -> CreateAIAgent {
    CreateAIAgent { owner: id(2), bump: 253 }
}

fn agent() -> AIAgent {
    AIAgent {
        owner: id(2),
        agent_id: String::from("agent-1"),
        name: String::from("Scout"),
        is_active: true,
        max_budget_per_ticket: 200_000,
        total_budget: 500_000,
        spent_budget: 0,
        preference_flags: 9,
        preferred_genres: [1, 2, 3, 0, 0, 0, 0, 0, 0, 0],
        preferred_venues: [id(40), id(41), id(0), id(0), id(0)],
        min_event_duration: 60,
        max_event_duration: 7_200,
        allowed_locations: [id(50), id(0), id(0), id(0), id(0)],
        max_distance: 25,
        preferred_days: 0b011_0000,
        preferred_time_start: 1_080,
        preferred_time_end: 1_380,
        auto_purchase_enabled: true,
        auto_purchase_threshold: 1_500,
        max_tickets_per_event: 2,
        require_verification: true,
        allow_agent_coordination: true,
        coordination_group_id: None,
        tickets_purchased: 0,
        money_saved: 0,
        created_at: 77,
        last_active: 77,
        bump: 253,
    }
}

fn create(
    agent_id: String,
    name: String,
    max_budget_per_ticket: u64,
    total_budget: u64,
    time_start: u32,
    time_end: u32,
    threshold: u16,
) -> Result<AIAgent, TixError> {
    create_ai_agent(
        &owner(),
        agent_id,
        name,
        max_budget_per_ticket,
        total_budget,
        9,
        [1, 2, 3, 0, 0, 0, 0, 0, 0, 0],
        [id(40), id(41), id(0), id(0), id(0)],
        60,
        7_200,
        [id(50), id(0), id(0), id(0), id(0)],
        25,
        0b011_0000,
        time_start,
        time_end,
        true,
        threshold,
        2,
        true,
        true,
        77,
    )
}

fn keep(ctx: &mut UpdateAIAgent) -> Result<(), TixError> {
    update_ai_agent(
        ctx, None, None, None, None, None, None, None, None, None, None, None, None, None, None,
        None,
    )
}

#[test]
fn created_agent_holds_what_was_given() {
    let r = create(String::from("agent-1"), String::from("Scout"), 200_000, 500_000, 1_080, 1_380, 1_500);
    assert_eq!(r, Ok(agent()));
}

#[test]
fn agent_needs_a_budget() {
    let a = || String::from("a");
    assert_eq!(create(a(), a(), 0, 500_000, 0, 0, 0), Err(TixError::InsufficientAgentBudget));
    assert_eq!(create(a(), a(), 1, 0, 0, 0, 0), Err(TixError::InsufficientAgentBudget));
    assert!(create(a(), a(), 1, 1, 0, 0, 0).is_ok());
    assert_eq!(TixError::InsufficientAgentBudget.kind(), ErrorKind::Capacity);
}

#[test]
fn agent_time_window_is_in_minutes_of_a_day() {
    let a = || String::from("a");
    assert!(create(a(), a(), 1, 1, 1_439, 1_439, 0).is_ok());
    assert_eq!(create(a(), a(), 1, 1, 1_440, 0, 0), Err(TixError::InvalidEventTiming));
    assert_eq!(create(a(), a(), 1, 1, 0, 1_440, 0), Err(TixError::InvalidEventTiming));
}

#[test]
fn agent_threshold_is_at_most_the_whole() {
    let a = || String::from("a");
    assert!(create(a(), a(), 1, 1, 0, 0, 10_000).is_ok());
    assert_eq!(create(a(), a(), 1, 1, 0, 0, 10_001), Err(TixError::InvalidRoyaltyBps));
}

#[test]
fn agent_texts_must_fit() {
    assert!(create("x".repeat(30), "x".repeat(50), 1, 1, 0, 0, 0).is_ok());
    assert_eq!(
        create("x".repeat(31), "x".repeat(50), 1, 1, 0, 0, 0),
        Err(TixError::InvalidEventTiming)
    );
    assert_eq!(
        create("x".repeat(30), "x".repeat(51), 1, 1, 0, 0, 0),
        Err(TixError::InvalidEventTiming)
    );
    // The texts are judged before the budget.
    assert_eq!(create("x".repeat(31), String::new(), 0, 0, 0, 0, 0), Err(TixError::InvalidEventTiming));
}

#[test]
fn agent_with_defaults_is_open_to_everything() {
    let r = create_ai_agent_with_defaults(
        &owner(),
        String::from("agent-1"),
        String::from("Scout"),
        200_000,
        500_000,
        false,
        10_000,
        3,
        77,
    );
    assert_eq!(
        r,
        Ok(AIAgent {
            owner: id(2),
            agent_id: String::from("agent-1"),
            name: String::from("Scout"),
            is_active: true,
            max_budget_per_ticket: 200_000,
            total_budget: 500_000,
            spent_budget: 0,
            preference_flags: 0,
            preferred_genres: [0; 10],
            preferred_venues: [Identity::new([0; 32]); 5],
            min_event_duration: 0,
            max_event_duration: 86_400,
            allowed_locations: [Identity::new([0; 32]); 5],
            max_distance: 100,
            preferred_days: 127,
            preferred_time_start: 0,
            preferred_time_end: 1_439,
            auto_purchase_enabled: false,
            auto_purchase_threshold: 10_000,
            max_tickets_per_event: 3,
            require_verification: false,
            allow_agent_coordination: false,
            coordination_group_id: None,
            tickets_purchased: 0,
            money_saved: 0,
            created_at: 77,
            last_active: 77,
            bump: 253,
        })
    );
    assert_eq!(Identity::default(), Identity::new([0; 32]));
}

#[test]
fn agent_with_defaults_is_validated_too() {
    let a = || String::from("a");
    assert_eq!(
        create_ai_agent_with_defaults(&owner(), a(), a(), 0, 1, true, 0, 1, 0),
        Err(TixError::InsufficientAgentBudget)
    );
    assert_eq!(
        create_ai_agent_with_defaults(&owner(), a(), a(), 1, 1, true, 10_001, 1, 0),
        Err(TixError::InvalidRoyaltyBps)
    );
    assert_eq!(
        create_ai_agent_with_defaults(&owner(), "x".repeat(31), a(), 1, 1, true, 0, 1, 0),
        Err(TixError::InvalidEventTiming)
    );
}

#[test]
fn agent_update_changes_only_what_is_supplied() {
    let mut ctx = UpdateAIAgent { agent: agent(), owner: id(2) };
    let r = update_ai_agent(
        &mut ctx,
        Some(250_000),
        None,
        Some([7; 10]),
        None,
        None,
        Some(10_000),
        None,
        Some(50),
        Some(127),
        Some(0),
        None,
        Some(0),
        None,
        Some(false),
        None,
    );
    assert_eq!(r, Ok(()));
    assert_eq!(
        ctx.agent,
        AIAgent {
            max_budget_per_ticket: 250_000,
            preferred_genres: [7; 10],
            max_event_duration: 10_000,
            max_distance: 50,
            preferred_days: 127,
            preferred_time_start: 0,
            auto_purchase_threshold: 0,
            require_verification: false,
            ..agent()
        }
    );
    assert_eq!(ctx.owner, id(2));
}

#[test]
fn agent_update_of_every_field() {
    let mut ctx = UpdateAIAgent { agent: agent(), owner: id(2) };
    let r = update_ai_agent(
        &mut ctx,
        Some(1),
        Some(2),
        Some([3; 10]),
        Some([id(4); 5]),
        Some(5),
        Some(6),
        Some([id(7); 5]),
        Some(8),
        Some(9),
        Some(10),
        Some(11),
        Some(12),
        Some(13),
        Some(false),
        Some(false),
    );
    assert_eq!(r, Ok(()));
    assert_eq!(
        ctx.agent,
        AIAgent {
            max_budget_per_ticket: 1,
            preference_flags: 2,
            preferred_genres: [3; 10],
            preferred_venues: [id(4); 5],
            min_event_duration: 5,
            max_event_duration: 6,
            allowed_locations: [id(7); 5],
            max_distance: 8,
            preferred_days: 9,
            preferred_time_start: 10,
            preferred_time_end: 11,
            auto_purchase_threshold: 12,
            max_tickets_per_event: 13,
            require_verification: false,
            allow_agent_coordination: false,
            ..agent()
        }
    );
}

#[test]
fn agent_update_without_changes_changes_nothing() {
    let mut ctx = UpdateAIAgent { agent: agent(), owner: id(2) };
    assert_eq!(keep(&mut ctx), Ok(()));
    assert_eq!(ctx.agent, agent());
}

#[test]
fn agent_update_is_for_the_owner() {
    let mut ctx = UpdateAIAgent { agent: agent(), owner: id(3) };
    assert_eq!(keep(&mut ctx), Err(TixError::InvalidAuthority));
    assert_eq!(ctx.agent, agent());
}

#[test]
fn agent_update_that_fails_leaves_the_agent_alone() {
    let mut ctx = UpdateAIAgent { agent: agent(), owner: id(2) };
    let r = update_ai_agent(
        &mut ctx, Some(0), Some(1), None, None, None, None, None, None, None, None, None, None,
        None, None, None,
    );
    assert_eq!(r, Err(TixError::InsufficientAgentBudget));
    assert_eq!(ctx.agent, agent());
    let r = update_ai_agent(
        &mut ctx, Some(5), None, None, None, None, None, None, None, None, Some(1_440), None,
        None, None, None, None,
    );
    assert_eq!(r, Err(TixError::InvalidEventTiming));
    assert_eq!(ctx.agent, agent());
    let r = update_ai_agent(
        &mut ctx, Some(5), None, None, None, None, None, None, None, None, None, Some(1_440),
        None, None, None, None,
    );
    assert_eq!(r, Err(TixError::InvalidEventTiming));
    assert_eq!(ctx.agent, agent());
    let r = update_ai_agent(
        &mut ctx, Some(5), None, None, None, None, None, None, None, None, None, None,
        Some(10_001), None, None, None,
    );
    assert_eq!(r, Err(TixError::InvalidRoyaltyBps));
    assert_eq!(ctx.agent, agent());
}

#[test]
fn agent_limits_are_changed_by_the_owner() {
    let mut ctx = UpdateAgentConfig { agent: agent(), owner: id(2) };
    assert_eq!(update_agent_config(&mut ctx, Some(1), Some(10_000)), Ok(()));
    assert_eq!(
        ctx.agent,
        AIAgent { max_budget_per_ticket: 1, auto_purchase_threshold: 10_000, ..agent() }
    );
    assert_eq!(update_agent_config(&mut ctx, None, None), Ok(()));
    assert_eq!(ctx.agent.max_budget_per_ticket, 1);
    let mut ctx = UpdateAgentConfig { agent: agent(), owner: id(3) };
    assert_eq!(update_agent_config(&mut ctx, Some(1), None), Err(TixError::Unauthorized));
    assert_eq!(TixError::Unauthorized.kind(), ErrorKind::Authorization);
    assert_eq!(ctx.agent, agent());
}

#[test]
fn agent_limits_are_validated() {
    let mut ctx = UpdateAgentConfig { agent: agent(), owner: id(2) };
    assert_eq!(update_agent_config(&mut ctx, Some(0), Some(1)), Err(TixError::InvalidBudget));
    assert_eq!(update_agent_config(&mut ctx, Some(1), Some(10_001)), Err(TixError::InvalidInput));
    assert_eq!(ctx.agent, agent());
    assert_eq!(TixError::InvalidBudget.kind(), ErrorKind::InputValidation);
    assert_eq!(TixError::InvalidInput.kind(), ErrorKind::InputValidation);
}

#[test]
fn agent_is_switched_on_and_off() {
    let mut off = DeactivateAgent { agent: agent(), owner: id(2) };
    assert_eq!(deactivate_agent(&mut off), Ok(()));
    assert_eq!(off.agent, AIAgent { is_active: false, ..agent() });
    let mut on = ActivateAgent { agent: off.agent, owner: id(2) };
    assert_eq!(activate_agent(&mut on), Ok(()));
    assert_eq!(on.agent, agent());
}

#[test]
fn agent_switches_are_for_the_owner() {
    let mut off = DeactivateAgent { agent: agent(), owner: id(3) };
    assert_eq!(deactivate_agent(&mut off), Err(TixError::InvalidAuthority));
    assert_eq!(off.agent, agent());
    let stopped = AIAgent { is_active: false, ..agent() };
    let mut on = ActivateAgent { agent: stopped.clone(), owner: id(3) };
    assert_eq!(activate_agent(&mut on), Err(TixError::InvalidAuthority));
    assert_eq!(on.agent, stopped);
    let mut toggle = ToggleAutoPurchase { agent: agent(), owner: id(3) };
    assert_eq!(toggle_auto_purchase(&mut toggle, false), Err(TixError::InvalidAuthority));
    assert_eq!(toggle.agent, agent());
}

#[test]
fn auto_purchase_is_set_as_asked() {
    let mut ctx = ToggleAutoPurchase { agent: agent(), owner: id(2) };
    assert_eq!(toggle_auto_purchase(&mut ctx, false), Ok(()));
    assert_eq!(ctx.agent, AIAgent { auto_purchase_enabled: false, ..agent() });
    assert_eq!(toggle_auto_purchase(&mut ctx, false), Ok(()));
    assert!(!ctx.agent.auto_purchase_enabled);
    assert_eq!(toggle_auto_purchase(&mut ctx, true), Ok(()));
    assert_eq!(ctx.agent, agent());
}

#[test]
fn budget_is_raised_by_the_amount() {
    let mut ctx = AddAgentBudget { agent: agent(), owner: id(2) };
    assert_eq!(add_agent_budget(&mut ctx, 250), Ok(()));
    assert_eq!(ctx.agent, AIAgent { total_budget: 500_250, ..agent() });
}

#[test]
fn budget_is_not_raised_by_nothing_or_beyond_what_fits() {
    let mut ctx = AddAgentBudget { agent: agent(), owner: id(2) };
    assert_eq!(add_agent_budget(&mut ctx, 0), Err(TixError::InsufficientAgentBudget));
    assert_eq!(add_agent_budget(&mut ctx, u64::MAX - 499_999), Err(TixError::MathOverflow));
    assert_eq!(ctx.agent, agent());
    assert_eq!(add_agent_budget(&mut ctx, u64::MAX - 500_000), Ok(()));
    assert_eq!(ctx.agent.total_budget, u64::MAX);
    let mut ctx = AddAgentBudget { agent: agent(), owner: id(3) };
    assert_eq!(add_agent_budget(&mut ctx, 1), Err(TixError::InvalidAuthority));
    assert_eq!(ctx.agent, agent());
}

#[test]
fn budget_is_lowered_by_the_amount() {
    let mut ctx = DecreaseAgentBudget { agent: agent(), owner: id(2) };
    assert_eq!(decrease_agent_budget(&mut ctx, 100_000), Ok(()));
    assert_eq!(ctx.agent, AIAgent { total_budget: 400_000, ..agent() });
    assert_eq!(decrease_agent_budget(&mut ctx, 400_000), Ok(()));
    assert_eq!(ctx.agent.total_budget, 0);
}

#[test]
fn budget_is_not_lowered_below_zero() {
    let mut ctx = DecreaseAgentBudget { agent: agent(), owner: id(2) };
    assert_eq!(decrease_agent_budget(&mut ctx, 500_001), Err(TixError::MathUnderflow));
    assert_eq!(ctx.agent, agent());
    assert_eq!(TixError::MathUnderflow.kind(), ErrorKind::Arithmetic);
}

#[test]
fn budget_is_not_lowered_below_what_was_spent() {
    let spent = AIAgent { spent_budget: 300_000, ..agent() };
    let mut ctx = DecreaseAgentBudget { agent: spent.clone(), owner: id(2) };
    assert_eq!(decrease_agent_budget(&mut ctx, 200_001), Err(TixError::InsufficientAgentBudget));
    assert_eq!(ctx.agent, spent);
    assert_eq!(decrease_agent_budget(&mut ctx, 200_000), Ok(()));
    assert_eq!(ctx.agent.total_budget, 300_000);
    assert!(ctx.agent.spent_budget <= ctx.agent.total_budget);
    let mut ctx = DecreaseAgentBudget { agent: agent(), owner: id(3) };
    assert_eq!(decrease_agent_budget(&mut ctx, 1), Err(TixError::Unauthorized));
    assert_eq!(ctx.agent, agent());
}
