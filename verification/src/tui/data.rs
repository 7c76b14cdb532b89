//! Dashboard data. Amounts of money arrive from the API as floating-point
//! numbers; this library keeps each as the bit pattern of that `f64`
//! (`f64::to_bits`) and never computes with it.

use vstd::prelude::*;

verus! {

/// Project summary for dashboard display.
#[derive(Debug, Clone)]
pub struct ProjectSummary {
    pub name: String,
    pub slug: String,
    pub description: Option<String>,
    pub phase: String,
    pub is_internal: bool,
    pub team_count: usize,
}

/// Financial summary combining engagement values and accounting data
/// (each amount as the bit pattern of its `f64`).
#[derive(Debug, Clone)]
pub struct Financials {
    pub total_value: u64,
    pub total_invoiced: u64,
    pub total_paid: u64,
    pub total_outstanding: u64,
}

impl Default for Financials {
    /// All amounts zero.
    fn default() -> (r: Self)
        ensures
            r.total_value == 0 && r.total_invoiced == 0 && r.total_paid == 0 && r.total_outstanding == 0,
    {
        Financials { total_value: 0, total_invoiced: 0, total_paid: 0, total_outstanding: 0 }
    }
}

/// A single activity log entry.
#[derive(Debug, Clone)]
pub struct ActivityEntry {
    pub user_name: String,
    pub summary: String,
    pub source: String,
    pub project_slug: Option<String>,
    pub created_at: String,
}

/// Revenue chart data: paid, invoiced and projected revenue per week (each
/// amount as the bit pattern of its `f64`).
#[derive(Debug, Clone)]
pub struct RevenueChart {
    /// ISO date of each week's Monday.
    pub week_labels: Vec<String>,
    pub paid: Vec<u64>,
    pub invoiced: Vec<u64>,
    pub projected: Vec<u64>,
    /// Revenue over the trailing 90 days.
    pub total_90d: u64,
    /// Average weekly revenue over the trailing 90 days.
    pub avg_weekly: u64,
}

impl Default for RevenueChart {
    /// No weeks, zero totals.
    fn default() -> (r: Self)
        ensures
            r.week_labels@.len() == 0 && r.paid@.len() == 0 && r.invoiced@.len() == 0
                && r.projected@.len() == 0 && r.total_90d == 0 && r.avg_weekly == 0,
    {
        RevenueChart {
            week_labels: Vec::new(),
            paid: Vec::new(),
            invoiced: Vec::new(),
            projected: Vec::new(),
            total_90d: 0,
            avg_weekly: 0,
        }
    }
}

/// Dashboard data loaded from the API.
#[derive(Debug, Clone)]
pub struct DashboardData {
    pub projects: Vec<ProjectSummary>,
    pub pending_changes_count: usize,
    pub financials: Financials,
    pub activity: Vec<ActivityEntry>,
    pub activity_days: u32,
    pub revenue_chart: RevenueChart,
}

impl DashboardData {
    /// Nothing loaded yet.
    pub open spec fn is_empty(&self) -> bool {
        &&& self.projects@.len() == 0
        &&& self.pending_changes_count == 0
        &&& self.activity@.len() == 0
        &&& self.activity_days == 0
        &&& self.financials.total_value == 0 && self.financials.total_invoiced == 0
        &&& self.financials.total_paid == 0 && self.financials.total_outstanding == 0
        &&& self.revenue_chart.week_labels@.len() == 0
        &&& self.revenue_chart.paid@.len() == 0 && self.revenue_chart.invoiced@.len() == 0
        &&& self.revenue_chart.projected@.len() == 0
        &&& self.revenue_chart.total_90d == 0 && self.revenue_chart.avg_weekly == 0
    }
}

impl Default for DashboardData {
    /// No projects, changes or activity.
    fn default() -> (r: Self)
        ensures
            r.is_empty(),
    {
        DashboardData {
            projects: Vec::new(),
            pending_changes_count: 0,
            financials: Financials::default(),
            activity: Vec::new(),
            activity_days: 0,
            revenue_chart: RevenueChart::default(),
        }
    }
}

} // verus!
