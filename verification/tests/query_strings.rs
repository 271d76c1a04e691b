use portfolio_web::blog::{blog_list_query, blog_slug_query};
use portfolio_web::env::EnvConfig;
use portfolio_web::projects::projects_query;
use portfolio_web::query::{create_server_client, ServerSupabaseClient};
use portfolio_web::text::u64_to_string;

fn client() -> ServerSupabaseClient {
    ServerSupabaseClient::new("https://example.test", "public-key")
}

#[test]
fn client_appends_the_rest_path() {
    let c = client();
    assert_eq!(c.rest_url, "https://example.test/rest/v1");
    assert_eq!(c.api_key, "public-key");
}

#[test]
fn client_headers_carry_key_and_bearer_token() {
    let hs = client().headers();
    assert_eq!(hs.len(), 2);
    assert_eq!(hs[0], ("apikey".to_string(), "public-key".to_string()));
    assert_eq!(
        hs[1],
        ("Authorization".to_string(), "Bearer public-key".to_string())
    );
}

#[test]
fn blog_list_query_renders_exactly() {
    let q = blog_list_query(&client());
    assert_eq!(
        q.query_string(),
        "select=id,title,content,author,created_at,slug, excerpt,tags,cover_image,published_at\
         &order=created_at.desc&limit=1000"
    );
    assert!(q.accept_header().is_none());
}

#[test]
fn blog_slug_query_renders_exactly() {
    let q = blog_slug_query(&client(), "first-post");
    assert_eq!(
        q.query_string(),
        "select=id,title,content,author,created_at,slug,excerpt,tags,cover_image,published_at,updated_at\
         &slug=eq.first-post&is_published=eq.true"
    );
    let accept = q.accept_header().expect("single-object request");
    assert_eq!(accept.0, "Accept");
    assert_eq!(accept.1, "application/vnd.pgrst.object+json");
}

#[test]
fn projects_query_renders_exactly() {
    let q = projects_query(&client());
    assert_eq!(
        q.query_string(),
        "select=id,title,description,category,technologies,github_url,demo_url,featured,created_at,image_url\
         &order=created_at.desc&limit=1000"
    );
}

#[test]
fn request_url_joins_base_table_and_query() {
    let c = client();
    let q = c.table("blog_posts").select("id").limit(2);
    assert_eq!(
        c.request_url(&q),
        "https://example.test/rest/v1/blog_posts?select=id&limit=2"
    );
}

#[test]
fn empty_query_renders_empty() {
    let q = client().table("blog_posts");
    assert_eq!(q.query_string(), "");
}

#[test]
fn create_server_client_reads_the_config() {
    let config = EnvConfig {
        supabase_project_id: "projid".to_string(),
        supabase_url: "https://db.example.test".to_string(),
        supabase_anon_key: "anon".to_string(),
    };
    let c = create_server_client(&config);
    assert_eq!(c.rest_url, "https://db.example.test/rest/v1");
    assert_eq!(c.api_key, "anon");
}

#[test]
fn decimal_rendering_is_exact() {
    assert_eq!(u64_to_string(0), "0");
    assert_eq!(u64_to_string(7), "7");
    assert_eq!(u64_to_string(10), "10");
    assert_eq!(u64_to_string(1000), "1000");
    assert_eq!(u64_to_string(90210), "90210");
    assert_eq!(u64_to_string(u64::MAX), "18446744073709551615");
}
