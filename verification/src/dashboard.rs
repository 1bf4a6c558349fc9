use vstd::prelude::*;

use crate::metrics::{ComplianceMetrics, CountsView};
use tui::style::{Color, Modifier, Style};
use tui::text::Span;
use tui::widgets::{Block, Borders};

verus! {

/// Commands the aggregator sends to the presentation collaborator.
pub enum DashboardCommand {
    UpdateMetrics(ComplianceMetrics),
}

/// The four dashboard tabs.
#[derive(Clone, Copy, PartialEq, Eq, Structural, Debug)]
pub enum DashboardTab {
    Overview,
    Services,
    Compliance,
    Risk,
}

impl DashboardTab {
    /// The tab's position in the tab bar.
    pub open spec fn spec_index(self) -> int {
        match self {
            DashboardTab::Overview => 0,
            DashboardTab::Services => 1,
            DashboardTab::Compliance => 2,
            DashboardTab::Risk => 3,
        }
    }

    /// The tab's position in the tab bar.
    pub fn index(&self) -> (i: usize)
        ensures
            i == self.spec_index(),
    {
        match self {
            DashboardTab::Overview => 0,
            DashboardTab::Services => 1,
            DashboardTab::Compliance => 2,
            DashboardTab::Risk => 3,
        }
    }

    /// The tab after this one, cycling back to the first.
    pub open spec fn spec_next(self) -> DashboardTab {
        match self {
            DashboardTab::Overview => DashboardTab::Services,
            DashboardTab::Services => DashboardTab::Compliance,
            DashboardTab::Compliance => DashboardTab::Risk,
            DashboardTab::Risk => DashboardTab::Overview,
        }
    }
}

/// A key press, reduced to what the dashboard reacts to; the presentation
/// layer translates the terminal's own key events into this.
#[derive(Clone, Copy, PartialEq, Eq, Structural, Debug)]
pub enum KeyInput {
    Char(char),
    Esc,
    Tab,
    Other,
}

/// The tab selected after a key press: the digit keys select a tab
/// directly, the tab key cycles, everything else leaves the selection.
pub open spec fn spec_tab_after(tab: DashboardTab, key: KeyInput) -> DashboardTab {
    match key {
        KeyInput::Char(c) => if c == '1' {
            DashboardTab::Overview
        } else if c == '2' {
            DashboardTab::Services
        } else if c == '3' {
            DashboardTab::Compliance
        } else if c == '4' {
            DashboardTab::Risk
        } else {
            tab
        },
        KeyInput::Tab => tab.spec_next(),
        KeyInput::Esc => tab,
        KeyInput::Other => tab,
    }
}

/// The dashboard's state: the snapshot on display, the selected tab, and
/// whether the user asked to quit.
pub struct Dashboard {
    pub metrics: ComplianceMetrics,
    pub active_tab: DashboardTab,
    pub should_quit: bool,
}

impl Dashboard {
    /// A fresh dashboard: nothing received yet, first tab selected.
    pub fn new() -> (d: Dashboard)
        ensures
            d.metrics.wf(),
            d.metrics.counts() == CountsView::empty(),
            d.metrics.total_events == 0,
            d.active_tab == DashboardTab::Overview,
            !d.should_quit,
    {
        Dashboard {
            metrics: ComplianceMetrics::new(),
            active_tab: DashboardTab::Overview,
            should_quit: false,
        }
    }

    /// Applies one command from the aggregator: the carried snapshot
    /// replaces the one on display.
    pub fn handle_command(&mut self, cmd: DashboardCommand)
        ensures
            final(self).metrics == (match cmd {
                DashboardCommand::UpdateMetrics(m) => m,
            }),
            final(self).active_tab == old(self).active_tab,
            final(self).should_quit == old(self).should_quit,
    {
        match cmd {
            DashboardCommand::UpdateMetrics(metrics) => self.metrics = metrics,
        }
    }

    /// Applies one key press: quit on `q` or escape, select or cycle tabs
    /// on the digit and tab keys, ignore everything else.
    pub fn handle_key_event(&mut self, key: KeyInput)
        ensures
            final(self).metrics == old(self).metrics,
            final(self).should_quit == (old(self).should_quit || key == KeyInput::Char('q') || key
                == KeyInput::Esc),
            final(self).active_tab == (if key == KeyInput::Char('q') || key == KeyInput::Esc {
                old(self).active_tab
            } else {
                spec_tab_after(old(self).active_tab, key)
            }),
    {
        match key {
            KeyInput::Char(c) => {
                if c == 'q' {
                    self.should_quit = true;
                } else if c == '1' {
                    self.active_tab = DashboardTab::Overview;
                } else if c == '2' {
                    self.active_tab = DashboardTab::Services;
                } else if c == '3' {
                    self.active_tab = DashboardTab::Compliance;
                } else if c == '4' {
                    self.active_tab = DashboardTab::Risk;
                }
            },
            KeyInput::Esc => {
                self.should_quit = true;
            },
            KeyInput::Tab => {
                self.active_tab = match self.active_tab {
                    DashboardTab::Overview => DashboardTab::Services,
                    DashboardTab::Services => DashboardTab::Compliance,
                    DashboardTab::Compliance => DashboardTab::Risk,
                    DashboardTab::Risk => DashboardTab::Overview,
                };
            },
            KeyInput::Other => {},
        }
    }
}

/// tui's bordered-box widget; its value is opaque here and is only handed
/// on to the renderer.
#[verifier::external_type_specification]
#[verifier::external_body]
pub struct ExBlock<'a>(Block<'a>);

/// Relies on tui's `Block` builder: a block with all borders and the given
/// title in the dashboard's house style.
#[verifier::external_body]
fn styled_block<'a>(title: &'a str) -> Block<'a> {
    Block::default().borders(Borders::ALL).title(
        Span::styled(title, Style::default().fg(Color::Cyan).add_modifier(Modifier::BOLD)),
    )
}

/// A titled block in the dashboard's house style, for the renderer; the
/// widget itself is opaque to verification.
pub fn create_block<'a>(title: &'a str) -> Block<'a> {
    styled_block(title)
}

} // verus!
