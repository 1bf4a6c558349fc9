use compliance_pipeline::dashboard::{
    create_block, Dashboard, DashboardCommand, DashboardTab, KeyInput,
};
use compliance_pipeline::generator::generate_ai_events;
use compliance_pipeline::worker::process_batch;
use rand::rngs::StdRng;
use rand::SeedableRng;

#[test]
fn tab_indices() {
    assert_eq!(DashboardTab::Overview.index(), 0);
    assert_eq!(DashboardTab::Services.index(), 1);
    assert_eq!(DashboardTab::Compliance.index(), 2);
    assert_eq!(DashboardTab::Risk.index(), 3);
}

#[test]
fn fresh_dashboard_shows_nothing() {
    let d = Dashboard::new();
    assert_eq!(d.metrics.total_events, 0);
    assert_eq!(d.active_tab, DashboardTab::Overview);
    assert!(!d.should_quit);
}

#[test]
fn digit_keys_select_tabs() {
    let mut d = Dashboard::new();
    d.handle_key_event(KeyInput::Char('3'));
    assert_eq!(d.active_tab, DashboardTab::Compliance);
    d.handle_key_event(KeyInput::Char('2'));
    assert_eq!(d.active_tab, DashboardTab::Services);
    d.handle_key_event(KeyInput::Char('4'));
    assert_eq!(d.active_tab, DashboardTab::Risk);
    d.handle_key_event(KeyInput::Char('1'));
    assert_eq!(d.active_tab, DashboardTab::Overview);
    assert!(!d.should_quit);
}

#[test]
fn tab_key_cycles_through_all_tabs() {
    let mut d = Dashboard::new();
    let expected = [
        DashboardTab::Services,
        DashboardTab::Compliance,
        DashboardTab::Risk,
        DashboardTab::Overview,
    ];
    for tab in expected {
        d.handle_key_event(KeyInput::Tab);
        assert_eq!(d.active_tab, tab);
    }
}

#[test]
fn quit_keys_set_the_flag() {
    let mut d = Dashboard::new();
    d.handle_key_event(KeyInput::Char('q'));
    assert!(d.should_quit);

    let mut d = Dashboard::new();
    d.handle_key_event(KeyInput::Esc);
    assert!(d.should_quit);
}

#[test]
fn unmapped_keys_change_nothing() {
    let mut d = Dashboard::new();
    d.handle_key_event(KeyInput::Char('x'));
    d.handle_key_event(KeyInput::Other);
    assert_eq!(d.active_tab, DashboardTab::Overview);
    assert!(!d.should_quit);
}

#[test]
fn update_command_replaces_the_snapshot() {
    let mut rng = StdRng::seed_from_u64(5);
    let m = process_batch(&generate_ai_events(&mut rng, 25));
    let total = m.total_events;
    let mut d = Dashboard::new();
    d.handle_command(DashboardCommand::UpdateMetrics(m));
    assert_eq!(d.metrics.total_events, total);
    assert_eq!(d.active_tab, DashboardTab::Overview);
}

#[test]
fn create_block_builds_a_widget() {
    let _block = create_block("Overall Compliance");
}
