use fund_transparency::queries::{
    average_donation, dashboard_query, escape_like, export_csv, export_filter_where, log_page_window,
    project_filter_where, project_page_window, ExportRow, ListParams,
};
use fund_transparency::types::ProjectFilter;

#[test]
fn project_paging() {
    assert_eq!(project_page_window(None, None), Some((1, 20, 0)));
    assert_eq!(project_page_window(Some(3), Some(500)), Some((3, 100, 200)));
    assert_eq!(project_page_window(Some(-4), Some(10)), Some((1, 10, 0)));
    assert_eq!(project_page_window(Some(i64::MAX), Some(100)), None);
}

#[test]
fn ops_log_paging() {
    assert_eq!(log_page_window(None, None), Some((50, 0)));
    assert_eq!(log_page_window(Some(2), Some(25)), Some((25, 25)));
    assert_eq!(log_page_window(Some(0), None), Some((50, -50)));
    assert_eq!(log_page_window(Some(i64::MIN), None), None);
}

#[test]
fn like_metacharacters_are_escaped() {
    assert_eq!(escape_like("50%_off\\now"), "50\\%\\_off\\\\now");
    assert_eq!(escape_like("plain"), "plain");
}

#[test]
fn project_filter_sql() {
    let f = ProjectFilter {
        cause: Some("health".to_string()),
        status: None,
        zip_code: Some("12345".to_string()),
        search: Some("clean_water".to_string()),
    };
    let (sql, params) = project_filter_where(&f);
    assert_eq!(
        sql,
        "1=1 AND p.cause = ?1 AND p.zip_code = ?2 AND (p.title LIKE ?3 ESCAPE '\\' OR p.description LIKE ?3 ESCAPE '\\')"
    );
    assert_eq!(params, vec!["health".to_string(), "12345".to_string(), "%clean\\_water%".to_string()]);
    let empty = ProjectFilter { cause: None, status: None, zip_code: None, search: None };
    assert_eq!(project_filter_where(&empty), ("1=1".to_string(), vec![]));
}

#[test]
fn list_params_give_filter() {
    let p = ListParams {
        cause: None,
        status: Some("active".to_string()),
        zip_code: None,
        search: None,
        page: Some(2),
        per_page: None,
    };
    let f = p.filter();
    assert_eq!(f.status, Some("active".to_string()));
    assert_eq!(f.cause, None);
}

#[test]
fn dashboard_conditions_with_cause() {
    let q = dashboard_query(Some("2024-01-01"), None, Some("health"), None);
    assert!(q.join_projects);
    assert_eq!(q.where_sql, "(d.is_reversal = 0 OR d.reversal_approved = 1) AND d.created_at >= ?1 AND p.cause = ?2");
    assert_eq!(q.count_where_sql, "d.is_reversal = 0 AND d.created_at >= ?1 AND p.cause = ?2");
    assert_eq!(q.params, vec!["2024-01-01".to_string(), "health".to_string()]);
    let q = dashboard_query(None, Some("2024-12-31"), None, None);
    assert!(!q.join_projects);
    assert_eq!(q.where_sql, "(d.is_reversal = 0 OR d.reversal_approved = 1) AND d.created_at <= ?1");
}

#[test]
fn pending_reversals_left_out_of_conditions() {
    let q = dashboard_query(None, None, None, None);
    assert_eq!(q.where_sql, "(d.is_reversal = 0 OR d.reversal_approved = 1)");
    assert_eq!(q.count_where_sql, "d.is_reversal = 0");
    let (sql, params) = export_filter_where(None, None, None, Some("active"));
    assert_eq!(sql, "(d.is_reversal = 0 OR d.reversal_approved = 1) AND p.status = ?1");
    assert_eq!(params, vec!["active".to_string()]);
}

#[test]
fn average_truncates_toward_zero() {
    assert_eq!(average_donation(1000, 3), 333);
    assert_eq!(average_donation(-1000, 3), -333);
    assert_eq!(average_donation(1000, 0), 0);
}

#[test]
fn csv_export_text() {
    let rows = vec![
        ExportRow {
            pledge_number: "PLG-1".to_string(),
            project_title: "Clean, Water".to_string(),
            masked_donor: "J***".to_string(),
            amount_cents: 2500,
            budget_line: None,
            created_at: "2024-01-01 00:00:00".to_string(),
        },
        ExportRow {
            pledge_number: "REF-2".to_string(),
            project_title: "Park".to_string(),
            masked_donor: "A***".to_string(),
            amount_cents: -100,
            budget_line: Some("Trees".to_string()),
            created_at: "2024-01-02 00:00:00".to_string(),
        },
    ];
    assert_eq!(
        export_csv(&rows),
        "Pledge#,Project,Donor (masked),Amount (cents),Budget Line,Date\n\
         PLG-1,\"Clean, Water\",J***,2500,,2024-01-01 00:00:00\n\
         REF-2,Park,A***,-100,Trees,2024-01-02 00:00:00\n"
    );
}
