use portfolio_web::blog::{get_blog, get_blog_with_slug, reading_minutes, BlogPost, SupabaseBlogPost};
use portfolio_web::errors::{view_fallback, DataError};
use portfolio_web::projects::{get_projects, in_category, Project};
use portfolio_web::records::{FetchOutcome, FieldValue, Record};

fn field(name: &str, value: FieldValue) -> (String, FieldValue) {
    (name.to_string(), value)
}

fn text(name: &str, value: &str) -> (String, FieldValue) {
    field(name, FieldValue::Text(value.to_string()))
}

fn blog_record(id: i64, title: &str, published_at: &str) -> Record {
    Record {
        fields: vec![
            field("id", FieldValue::Int(id)),
            text("title", title),
            text("slug", "a-slug"),
            text("content", "Some body text."),
            text("excerpt", "An excerpt."),
            text("published_at", published_at),
            text("author", "An Author"),
        ],
    }
}

fn project_record(id: i64, title: &str, category: &str) -> Record {
    Record {
        fields: vec![
            field("id", FieldValue::Int(id)),
            text("title", title),
            text("description", "A description."),
            text("category", category),
            field(
                "technologies",
                FieldValue::TextList(vec!["rust".to_string(), "sql".to_string()]),
            ),
            field("featured", FieldValue::Bool(true)),
            text("created_at", "2024-01-01"),
        ],
    }
}

#[test]
fn blog_row_with_every_field_parses() {
    let mut rec = blog_record(3, "Hello", "2024-02-01");
    rec.fields.push(text("cover_image", "https://example.test/img.png"));
    rec.fields.push(field(
        "tags",
        FieldValue::TextList(vec!["debug".to_string(), "supabase".to_string()]),
    ));
    rec.fields.push(text("updated_at", "2024-02-02"));
    let parsed = SupabaseBlogPost::from_record(&rec).expect("well-formed row must parse");
    assert_eq!(parsed.id, 3);
    assert_eq!(parsed.title, "Hello");
    assert_eq!(parsed.cover_image.as_deref(), Some("https://example.test/img.png"));
    assert_eq!(parsed.tags, Some(vec!["debug".to_string(), "supabase".to_string()]));
    assert_eq!(parsed.updated_at.as_deref(), Some("2024-02-02"));
}

#[test]
fn blog_row_missing_cover_image_is_absent_not_an_error() {
    let rec = blog_record(1, "No cover", "2024-02-01");
    let parsed = SupabaseBlogPost::from_record(&rec).expect("absence of an optional field");
    assert!(parsed.cover_image.is_none());
    assert!(parsed.updated_at.is_none());
    assert!(parsed.created_at.is_none());
}

#[test]
fn blog_row_missing_tags_becomes_empty_list() {
    let rows = Some(vec![blog_record(1, "Untagged", "2024-02-01")]);
    let posts = get_blog(FetchOutcome::Response { status: 200, rows }).unwrap();
    assert_eq!(posts.len(), 1);
    assert!(posts[0].tags.is_empty());
}

#[test]
fn blog_row_with_non_list_tags_becomes_empty_list() {
    let mut rec = blog_record(1, "Odd tags", "2024-02-01");
    rec.fields.push(text("tags", "not-a-list"));
    let rows = Some(vec![rec]);
    let posts = get_blog(FetchOutcome::Response { status: 200, rows }).unwrap();
    assert!(posts[0].tags.is_empty());
}

#[test]
fn blog_row_missing_required_field_is_parse_error() {
    let mut rec = blog_record(1, "Broken", "2024-02-01");
    rec.fields.retain(|f| f.0 != "title");
    let rows = Some(vec![rec]);
    let r = get_blog(FetchOutcome::Response { status: 200, rows });
    assert_eq!(r, Err(DataError::ParseError));
}

#[test]
fn blog_row_id_out_of_range_is_parse_error() {
    let mut rec = blog_record(1, "Big id", "2024-02-01");
    rec.fields[0] = field("id", FieldValue::Int(i64::MAX));
    let r = get_blog(FetchOutcome::Response { status: 200, rows: Some(vec![rec]) });
    assert_eq!(r, Err(DataError::ParseError));
}

#[test]
fn blog_list_preserves_the_order_the_service_sent() {
    let rows = Some(vec![
        blog_record(2, "Newest", "2024-03-01"),
        blog_record(1, "Older", "2024-01-01"),
    ]);
    let posts = get_blog(FetchOutcome::Response { status: 200, rows }).unwrap();
    assert_eq!(posts.len(), 2);
    assert_eq!(posts[0].title, "Newest");
    assert_eq!(posts[1].title, "Older");
    assert!(posts[0].published_at > posts[1].published_at);
}

#[test]
fn blog_http_failure_is_remote_service_error() {
    let r = get_blog(FetchOutcome::Response { status: 500, rows: None });
    assert_eq!(r, Err(DataError::RemoteServiceError(500)));
}

#[test]
fn blog_transport_failure_is_network_error() {
    let r = get_blog(FetchOutcome::TransportFailure("connection refused".to_string()));
    assert_eq!(r, Err(DataError::NetworkError("connection refused".to_string())));
}

#[test]
fn blog_malformed_body_is_parse_error() {
    let r = get_blog(FetchOutcome::Response { status: 200, rows: None });
    assert_eq!(r, Err(DataError::ParseError));
}

#[test]
fn slug_query_zero_rows_is_not_found_not_empty_success() {
    let r = get_blog_with_slug(FetchOutcome::Response { status: 200, rows: Some(vec![]) });
    assert_eq!(r, Err(DataError::NotFound));
}

#[test]
fn slug_query_missing_row_status_is_not_found() {
    assert_eq!(
        get_blog_with_slug(FetchOutcome::Response { status: 404, rows: None }),
        Err(DataError::NotFound)
    );
    assert_eq!(
        get_blog_with_slug(FetchOutcome::Response { status: 406, rows: None }),
        Err(DataError::NotFound)
    );
}

#[test]
fn slug_query_with_one_row_succeeds() {
    let rows = Some(vec![blog_record(9, "Found", "2024-02-01")]);
    let post = get_blog_with_slug(FetchOutcome::Response { status: 200, rows }).unwrap();
    assert_eq!(post.id, 9);
    assert_eq!(post.title, "Found");
    assert_eq!(post.slug, "a-slug");
}

#[test]
fn project_rows_parse_and_optional_urls_default_to_absent() {
    let rows = Some(vec![project_record(1, "Site", "web")]);
    let projects = get_projects(FetchOutcome::Response { status: 200, rows }).unwrap();
    assert_eq!(projects.len(), 1);
    assert_eq!(projects[0].technologies, vec!["rust".to_string(), "sql".to_string()]);
    assert!(projects[0].github_url.is_none());
    assert!(projects[0].image_url.is_none());
    assert!(projects[0].featured);
}

#[test]
fn project_missing_technologies_is_parse_error() {
    let mut rec = project_record(1, "Site", "web");
    rec.fields.retain(|f| f.0 != "technologies");
    let r = get_projects(FetchOutcome::Response { status: 200, rows: Some(vec![rec]) });
    assert_eq!(r, Err(DataError::ParseError));
}

#[test]
fn projects_split_by_category() {
    let rows = Some(vec![
        project_record(1, "Site", "web"),
        project_record(2, "Bracket", "3d-printing"),
        project_record(3, "Dashboard", "web"),
    ]);
    let projects = get_projects(FetchOutcome::Response { status: 200, rows }).unwrap();
    let web: Vec<Project> = in_category(&projects, "web");
    let printing: Vec<Project> = in_category(&projects, "3d-printing");
    assert_eq!(web.len(), 2);
    assert_eq!(web[0].title, "Site");
    assert_eq!(web[1].title, "Dashboard");
    assert_eq!(printing.len(), 1);
    assert_eq!(printing[0].title, "Bracket");
}

#[test]
fn views_fall_back_to_an_empty_state_never_fabricated_rows() {
    let rows = Some(vec![blog_record(1, "Real", "2024-02-01")]);
    let ok = get_blog(FetchOutcome::Response { status: 200, rows });
    let (posts, banner) = view_fallback(ok);
    assert_eq!(posts.len(), 1);
    assert!(banner.is_none());

    let failed: Result<Vec<BlogPost>, DataError> = Err(DataError::RemoteServiceError(503));
    let (posts, banner) = view_fallback(failed);
    assert!(posts.is_empty());
    assert_eq!(banner, Some(DataError::RemoteServiceError(503)));
}

#[test]
fn error_banner_text_is_exact() {
    assert_eq!(DataError::NotFound.message(), "not found");
    assert_eq!(DataError::ParseError.message(), "malformed response");
    assert_eq!(
        DataError::NetworkError("timed out".to_string()).message(),
        "request failed: timed out"
    );
    assert_eq!(
        DataError::RemoteServiceError(503).message(),
        "service responded with status 503"
    );
}

#[test]
fn reading_minutes_is_characters_over_250() {
    assert_eq!(reading_minutes(""), 0);
    assert_eq!(reading_minutes(&"x".repeat(249)), 0);
    assert_eq!(reading_minutes(&"x".repeat(500)), 2);
}
