//! Blog posts: the entity shape, parsing of rows returned by the
//! data service, and the interpretation of list and by-slug
//! responses.

use vstd::prelude::*;

use crate::errors::{DataError, is_success, spec_is_success};
use crate::query::{ResourceQuery, ServerSupabaseClient};
use crate::records::{FetchOutcome, Record};

verus! {

/// The mathematical shape of a blog post.
pub struct BlogPostView {
    pub id: int,
    pub title: Seq<char>,
    pub slug: Seq<char>,
    pub content: Seq<char>,
    pub excerpt: Seq<char>,
    pub published_at: Seq<char>,
    pub updated_at: Option<Seq<char>>,
    pub created_at: Option<Seq<char>>,
    pub tags: Seq<Seq<char>>,
    pub cover_image: Option<Seq<char>>,
    pub author: Seq<char>,
}

/// A blog post as the views render it.
#[derive(Debug, PartialEq, Eq)]
pub struct BlogPost {
    pub id: i32,
    pub title: String,
    pub slug: String,
    pub content: String,
    pub excerpt: String,
    pub published_at: String,
    pub updated_at: Option<String>,
    pub created_at: Option<String>,
    pub tags: Vec<String>,
    pub cover_image: Option<String>,
    pub author: String,
}

impl View for BlogPost {
    type V = BlogPostView;

    open spec fn view(&self) -> BlogPostView {
        BlogPostView {
            id: self.id as int,
            title: self.title@,
            slug: self.slug@,
            content: self.content@,
            excerpt: self.excerpt@,
            published_at: self.published_at@,
            updated_at: self.updated_at.deep_view(),
            created_at: self.created_at.deep_view(),
            tags: self.tags.deep_view(),
            cover_image: self.cover_image.deep_view(),
            author: self.author@,
        }
    }
}

impl DeepView for BlogPost {
    type V = BlogPostView;

    open spec fn deep_view(&self) -> BlogPostView {
        self.view()
    }
}

/// The mathematical shape of one raw row, before the tag list is
/// flattened.
pub struct SupabaseBlogPostView {
    pub id: int,
    pub title: Seq<char>,
    pub slug: Seq<char>,
    pub content: Seq<char>,
    pub excerpt: Seq<char>,
    pub published_at: Seq<char>,
    pub updated_at: Option<Seq<char>>,
    pub tags: Option<Seq<Seq<char>>>,
    pub cover_image: Option<Seq<char>>,
    pub author: Seq<char>,
    pub is_published: Option<bool>,
    pub created_at: Option<Seq<char>>,
}

/// A blog post row as the data service returns it: the tag list may
/// be missing altogether.
#[derive(Debug, PartialEq, Eq)]
pub struct SupabaseBlogPost {
    pub id: i32,
    pub title: String,
    pub slug: String,
    pub content: String,
    pub excerpt: String,
    pub published_at: String,
    pub updated_at: Option<String>,
    pub tags: Option<Vec<String>>,
    pub cover_image: Option<String>,
    pub author: String,
    pub is_published: Option<bool>,
    pub created_at: Option<String>,
}

impl View for SupabaseBlogPost {
    type V = SupabaseBlogPostView;

    open spec fn view(&self) -> SupabaseBlogPostView {
        SupabaseBlogPostView {
            id: self.id as int,
            title: self.title@,
            slug: self.slug@,
            content: self.content@,
            excerpt: self.excerpt@,
            published_at: self.published_at@,
            updated_at: self.updated_at.deep_view(),
            tags: self.tags.deep_view(),
            cover_image: self.cover_image.deep_view(),
            author: self.author@,
            is_published: self.is_published,
            created_at: self.created_at.deep_view(),
        }
    }
}

/// Whether a row value fits the stored integer width of a post id.
pub open spec fn fits_i32(v: i64) -> bool {
    i32::MIN as int <= v as int && v as int <= i32::MAX as int
}

/// Whether a row carries every field a blog post requires, each with
/// the shape the entity asks for. Optional fields may be absent or
/// null; a present optional field of the wrong shape is a fault.
pub open spec fn spec_blog_row_well_formed(rec: Record) -> bool {
    &&& rec.spec_int_field("id"@) is Some
    &&& fits_i32(rec.spec_int_field("id"@)->0)
    &&& rec.spec_text_field("title"@) is Some
    &&& rec.spec_text_field("slug"@) is Some
    &&& rec.spec_text_field("content"@) is Some
    &&& rec.spec_text_field("excerpt"@) is Some
    &&& rec.spec_text_field("published_at"@) is Some
    &&& rec.spec_text_field("author"@) is Some
    &&& rec.spec_opt_text_field("updated_at"@) is Some
    &&& rec.spec_opt_text_field("cover_image"@) is Some
    &&& rec.spec_opt_bool_field("is_published"@) is Some
    &&& rec.spec_opt_text_field("created_at"@) is Some
}

/// What parsing one returned row yields: the row's fields when it is
/// well formed, nothing otherwise.
pub open spec fn spec_parse_blog_row(rec: Record) -> Option<SupabaseBlogPostView> {
    if spec_blog_row_well_formed(rec) {
        Some(
            SupabaseBlogPostView {
                id: rec.spec_int_field("id"@)->0 as int,
                title: rec.spec_text_field("title"@)->0,
                slug: rec.spec_text_field("slug"@)->0,
                content: rec.spec_text_field("content"@)->0,
                excerpt: rec.spec_text_field("excerpt"@)->0,
                published_at: rec.spec_text_field("published_at"@)->0,
                updated_at: rec.spec_opt_text_field("updated_at"@)->0,
                tags: rec.spec_lenient_list_field("tags"@),
                cover_image: rec.spec_opt_text_field("cover_image"@)->0,
                author: rec.spec_text_field("author"@)->0,
                is_published: rec.spec_opt_bool_field("is_published"@)->0,
                created_at: rec.spec_opt_text_field("created_at"@)->0,
            },
        )
    } else {
        None
    }
}

/// Flattening a raw row into the rendered entity: a missing tag list
/// becomes the empty list, and the publication marker is dropped.
pub open spec fn spec_blog_post_of(v: SupabaseBlogPostView) -> BlogPostView {
    BlogPostView {
        id: v.id,
        title: v.title,
        slug: v.slug,
        content: v.content,
        excerpt: v.excerpt,
        published_at: v.published_at,
        updated_at: v.updated_at,
        created_at: v.created_at,
        tags: match v.tags {
            Some(t) => t,
            None => Seq::empty(),
        },
        cover_image: v.cover_image,
        author: v.author,
    }
}

impl SupabaseBlogPost {
    /// Parse one returned row, tolerating absent optional fields.
    pub fn from_record(rec: &Record) -> (r: Option<SupabaseBlogPost>)
        ensures
            match r {
                Some(p) => spec_parse_blog_row(*rec) == Some(p@),
                None => spec_parse_blog_row(*rec) is None,
            },
    {
        let id_raw = match rec.int_field("id") {
            Some(v) => v,
            None => {
                return None;
            },
        };
        if id_raw < i32::MIN as i64 || id_raw > i32::MAX as i64 {
            return None;
        }
        let title = match rec.text_field("title") {
            Some(s) => s,
            None => {
                return None;
            },
        };
        let slug = match rec.text_field("slug") {
            Some(s) => s,
            None => {
                return None;
            },
        };
        let content = match rec.text_field("content") {
            Some(s) => s,
            None => {
                return None;
            },
        };
        let excerpt = match rec.text_field("excerpt") {
            Some(s) => s,
            None => {
                return None;
            },
        };
        let published_at = match rec.text_field("published_at") {
            Some(s) => s,
            None => {
                return None;
            },
        };
        let author = match rec.text_field("author") {
            Some(s) => s,
            None => {
                return None;
            },
        };
        let updated_at = match rec.opt_text_field("updated_at") {
            Some(o) => o,
            None => {
                return None;
            },
        };
        let cover_image = match rec.opt_text_field("cover_image") {
            Some(o) => o,
            None => {
                return None;
            },
        };
        let is_published = match rec.opt_bool_field("is_published") {
            Some(o) => o,
            None => {
                return None;
            },
        };
        let created_at = match rec.opt_text_field("created_at") {
            Some(o) => o,
            None => {
                return None;
            },
        };
        let tags = rec.lenient_list_field("tags");
        Some(
            SupabaseBlogPost {
                id: id_raw as i32,
                title,
                slug,
                content,
                excerpt,
                published_at,
                updated_at,
                tags,
                cover_image,
                author,
                is_published,
                created_at,
            },
        )
    }
}

impl BlogPost {
    /// Flatten a raw row into the rendered entity.
    pub fn from_supabase(row: SupabaseBlogPost) -> (post: BlogPost)
        ensures
            post@ == spec_blog_post_of(row@),
    {
        let SupabaseBlogPost {
            id,
            title,
            slug,
            content,
            excerpt,
            published_at,
            updated_at,
            tags,
            cover_image,
            author,
            is_published: _,
            created_at,
        } = row;
        let tags_flat = match tags {
            Some(v) => v,
            None => {
                let empty: Vec<String> = Vec::new();
                proof {
                    assert(empty.deep_view() =~= Seq::<Seq<char>>::empty());
                }
                empty
            },
        };
        BlogPost {
            id,
            title,
            slug,
            content,
            excerpt,
            published_at,
            updated_at,
            created_at,
            tags: tags_flat,
            cover_image,
            author,
        }
    }
}

/// What parsing a whole returned array yields: every row parsed and
/// flattened, in the order the service sent them, or nothing when
/// any row is malformed.
pub open spec fn spec_parse_blog_rows(rows: Seq<Record>) -> Option<Seq<BlogPostView>>
    decreases rows.len(),
{
    if rows.len() == 0 {
        Some(Seq::empty())
    } else {
        let prefix = spec_parse_blog_rows(rows.drop_last());
        let last = spec_parse_blog_row(rows.last());
        if prefix is Some && last is Some {
            Some(prefix->0.push(spec_blog_post_of(last->0)))
        } else {
            None
        }
    }
}

proof fn lemma_blog_row_failure_fails_all(rows: Seq<Record>, i: int)
    requires
        0 <= i < rows.len(),
        spec_parse_blog_row(rows[i]) is None,
    ensures
        spec_parse_blog_rows(rows) is None,
    decreases rows.len(),
{
    if i == rows.len() - 1 {
        assert(rows.last() == rows[i]);
    } else {
        assert(rows.drop_last()[i] == rows[i]);
        lemma_blog_row_failure_fails_all(rows.drop_last(), i);
    }
}

/// Interpret the response to the blog-list query. Success yields the
/// parsed posts in the order the service sent them; any failure
/// yields the matching error and nothing else.
#[verifier::loop_isolation(false)]
pub fn get_blog(outcome: FetchOutcome) -> (r: Result<Vec<BlogPost>, DataError>)
    ensures
        match r {
            Ok(posts) => {
                &&& outcome matches FetchOutcome::Response { status, rows }
                &&& spec_is_success(status)
                &&& rows matches Some(rs)
                &&& spec_parse_blog_rows(rs@) == Some(posts.deep_view())
            },
            Err(e) => match outcome {
                FetchOutcome::TransportFailure(m) => e == DataError::NetworkError(m),
                FetchOutcome::Response { status, rows } => {
                    if !spec_is_success(status) {
                        e == DataError::RemoteServiceError(status)
                    } else if rows is None {
                        e == DataError::ParseError
                    } else {
                        e == DataError::ParseError && spec_parse_blog_rows(rows->0@) is None
                    }
                },
            },
        },
{
    match outcome {
        FetchOutcome::TransportFailure(m) => Err(DataError::NetworkError(m)),
        FetchOutcome::Response { status, rows } => {
            if !is_success(status) {
                return Err(DataError::RemoteServiceError(status));
            }
            match rows {
                None => Err(DataError::ParseError),
                Some(rs) => {
                    let mut posts: Vec<BlogPost> = Vec::new();
                    let mut i: usize = 0;
                    proof {
                        assert(rs@.take(0) =~= Seq::<Record>::empty());
                        assert(posts.deep_view() =~= Seq::<BlogPostView>::empty());
                    }
                    while i < rs.len()
                        invariant
                            i <= rs@.len(),
                            spec_parse_blog_rows(rs@.take(i as int)) == Some(posts.deep_view()),
                        decreases rs@.len() - i,
                    {
                        match SupabaseBlogPost::from_record(&rs[i]) {
                            Some(row) => {
                                let post = BlogPost::from_supabase(row);
                                let ghost prev: Seq<BlogPostView> = posts.deep_view();
                                posts.push(post);
                                proof {
                                    assert(posts.deep_view() =~= prev.push(post@));
                                    assert(rs@.take(i as int + 1).drop_last() =~= rs@.take(
                                        i as int,
                                    ));
                                    assert(rs@.take(i as int + 1).last() == rs@[i as int]);
                                }
                            },
                            None => {
                                proof {
                                    lemma_blog_row_failure_fails_all(rs@, i as int);
                                }
                                return Err(DataError::ParseError);
                            },
                        }
                        i += 1;
                    }
                    proof {
                        assert(rs@.take(rs@.len() as int) =~= rs@);
                    }
                    Ok(posts)
                },
            }
        },
    }
}

/// Interpret the response to a get-by-slug query: the service is
/// asked for the published post with the given slug; zero matching
/// rows is a NotFound condition, never an empty success.
pub fn get_blog_with_slug(outcome: FetchOutcome) -> (r: Result<BlogPost, DataError>)
    ensures
        match r {
            Ok(post) => {
                &&& outcome matches FetchOutcome::Response { status, rows }
                &&& spec_is_success(status)
                &&& rows matches Some(rs)
                &&& rs@.len() > 0
                &&& spec_parse_blog_row(rs@[0]) matches Some(v)
                &&& post@ == spec_blog_post_of(spec_parse_blog_row(rs@[0])->0)
            },
            Err(e) => match outcome {
                FetchOutcome::TransportFailure(m) => e == DataError::NetworkError(m),
                FetchOutcome::Response { status, rows } => {
                    if status == 404 || status == 406 {
                        e == DataError::NotFound
                    } else if !spec_is_success(status) {
                        e == DataError::RemoteServiceError(status)
                    } else if rows is None {
                        e == DataError::ParseError
                    } else if rows->0@.len() == 0 {
                        e == DataError::NotFound
                    } else {
                        e == DataError::ParseError && spec_parse_blog_row(rows->0@[0]) is None
                    }
                },
            },
        },
{
    match outcome {
        FetchOutcome::TransportFailure(m) => Err(DataError::NetworkError(m)),
        FetchOutcome::Response { status, rows } => {
            if status == 404 || status == 406 {
                return Err(DataError::NotFound);
            }
            if !is_success(status) {
                return Err(DataError::RemoteServiceError(status));
            }
            match rows {
                None => Err(DataError::ParseError),
                Some(rs) => {
                    if rs.len() == 0 {
                        return Err(DataError::NotFound);
                    }
                    match SupabaseBlogPost::from_record(&rs[0]) {
                        Some(row) => Ok(BlogPost::from_supabase(row)),
                        None => Err(DataError::ParseError),
                    }
                },
            }
        },
    }
}

/// The reading time a post card shows: one minute per 250
/// characters of content, rounded down.
pub fn reading_minutes(content: &str) -> (m: usize)
    ensures
        m == content@.len() / 250,
{
    content.unicode_len() / 250
}

/// The query the blog list is fetched with: every column the entity
/// reads, newest first, capped high enough to return all rows.
pub fn blog_list_query(client: &ServerSupabaseClient) -> (q: ResourceQuery)
    ensures
        q.table@ == "blog_posts"@,
        q.select matches Some(s) && s@
            == "id,title,content,author,created_at,slug, excerpt,tags,cover_image,published_at"@,
        q.filters@.len() == 0,
        q.order matches Some(o) && o@ == "created_at.desc"@,
        q.limit == Some(1000u64),
        q.single == false,
{
    client.table("blog_posts").select(
        "id,title,content,author,created_at,slug, excerpt,tags,cover_image,published_at",
    ).order("created_at.desc").limit(1000)
}

/// The query one post is fetched with: constrained to the given slug
/// and to published posts, and asking for a single object.
pub fn blog_slug_query(client: &ServerSupabaseClient, slug: &str) -> (q: ResourceQuery)
    ensures
        q.table@ == "blog_posts"@,
        q.select matches Some(s) && s@
            == "id,title,content,author,created_at,slug,excerpt,tags,cover_image,published_at,updated_at"@,
        q.filters@.len() == 2,
        q.filters@[0].0@ == "slug"@,
        q.filters@[0].1@ == slug@,
        q.filters@[1].0@ == "is_published"@,
        q.filters@[1].1@ == "true"@,
        q.order is None,
        q.limit is None,
        q.single == true,
{
    client.table("blog_posts").select(
        "id,title,content,author,created_at,slug,excerpt,tags,cover_image,published_at,updated_at",
    ).eq("slug", slug).eq("is_published", "true").single()
}

/// Law: a row missing an optional field still parses, and the parsed
/// entity exposes the field as absent; the absence alone is never a
/// fault. Stated for the cover image: a well-formed row without one
/// parses to a post without one.
pub proof fn lemma_absent_cover_image_tolerated(rec: Record)
    requires
        spec_blog_row_well_formed(rec),
        rec.spec_get("cover_image"@) is None,
    ensures
        spec_parse_blog_row(rec) is Some,
        spec_parse_blog_row(rec)->0.cover_image is None,
{
}

} // verus!
