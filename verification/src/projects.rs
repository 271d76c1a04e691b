//! Projects: the entity shape, parsing of rows returned by the data
//! service, the interpretation of the list response, and the list
//! query description.

use vstd::prelude::*;

use crate::errors::{DataError, is_success, spec_is_success};
use crate::query::{ResourceQuery, ServerSupabaseClient};
use crate::records::{FetchOutcome, Record};
use crate::text::{clone_strings, str_eq};

verus! {

/// The mathematical shape of a project.
pub struct ProjectView {
    pub id: int,
    pub title: Seq<char>,
    pub description: Seq<char>,
    pub category: Seq<char>,
    pub technologies: Seq<Seq<char>>,
    pub image_url: Option<Seq<char>>,
    pub github_url: Option<Seq<char>>,
    pub demo_url: Option<Seq<char>>,
    pub featured: bool,
    pub created_at: Seq<char>,
}

/// A project as the views render it.
#[derive(Debug, PartialEq, Eq)]
pub struct Project {
    pub id: i64,
    pub title: String,
    pub description: String,
    pub category: String,
    pub technologies: Vec<String>,
    pub image_url: Option<String>,
    pub github_url: Option<String>,
    pub demo_url: Option<String>,
    pub featured: bool,
    pub created_at: String,
}

impl View for Project {
    type V = ProjectView;

    open spec fn view(&self) -> ProjectView {
        ProjectView {
            id: self.id as int,
            title: self.title@,
            description: self.description@,
            category: self.category@,
            technologies: self.technologies.deep_view(),
            image_url: self.image_url.deep_view(),
            github_url: self.github_url.deep_view(),
            demo_url: self.demo_url.deep_view(),
            featured: self.featured,
            created_at: self.created_at@,
        }
    }
}

impl DeepView for Project {
    type V = ProjectView;

    open spec fn deep_view(&self) -> ProjectView {
        self.view()
    }
}

impl Clone for Project {
    fn clone(&self) -> (other: Project)
        ensures
            other@ == self@,
    {
        let technologies = clone_strings(&self.technologies);
        proof {
            assert(technologies.deep_view() =~= self.technologies.deep_view());
        }
        Project {
            id: self.id,
            title: self.title.clone(),
            description: self.description.clone(),
            category: self.category.clone(),
            technologies,
            image_url: self.image_url.clone(),
            github_url: self.github_url.clone(),
            demo_url: self.demo_url.clone(),
            featured: self.featured,
            created_at: self.created_at.clone(),
        }
    }
}

/// Whether a row carries every field a project requires, each with
/// the shape the entity asks for.
pub open spec fn spec_project_row_well_formed(rec: Record) -> bool {
    &&& rec.spec_int_field("id"@) is Some
    &&& rec.spec_text_field("title"@) is Some
    &&& rec.spec_text_field("description"@) is Some
    &&& rec.spec_text_field("category"@) is Some
    &&& rec.spec_list_field("technologies"@) is Some
    &&& rec.spec_opt_text_field("image_url"@) is Some
    &&& rec.spec_opt_text_field("github_url"@) is Some
    &&& rec.spec_opt_text_field("demo_url"@) is Some
    &&& rec.spec_bool_field("featured"@) is Some
    &&& rec.spec_text_field("created_at"@) is Some
}

/// What parsing one returned row yields.
pub open spec fn spec_parse_project_row(rec: Record) -> Option<ProjectView> {
    if spec_project_row_well_formed(rec) {
        Some(
            ProjectView {
                id: rec.spec_int_field("id"@)->0 as int,
                title: rec.spec_text_field("title"@)->0,
                description: rec.spec_text_field("description"@)->0,
                category: rec.spec_text_field("category"@)->0,
                technologies: rec.spec_list_field("technologies"@)->0,
                image_url: rec.spec_opt_text_field("image_url"@)->0,
                github_url: rec.spec_opt_text_field("github_url"@)->0,
                demo_url: rec.spec_opt_text_field("demo_url"@)->0,
                featured: rec.spec_bool_field("featured"@)->0,
                created_at: rec.spec_text_field("created_at"@)->0,
            },
        )
    } else {
        None
    }
}

impl Project {
    /// Parse one returned row, tolerating absent optional fields.
    pub fn from_record(rec: &Record) -> (r: Option<Project>)
        ensures
            match r {
                Some(p) => spec_parse_project_row(*rec) == Some(p@),
                None => spec_parse_project_row(*rec) is None,
            },
    {
        let id = match rec.int_field("id") {
            Some(v) => v,
            None => {
                return None;
            },
        };
        let title = match rec.text_field("title") {
            Some(s) => s,
            None => {
                return None;
            },
        };
        let description = match rec.text_field("description") {
            Some(s) => s,
            None => {
                return None;
            },
        };
        let category = match rec.text_field("category") {
            Some(s) => s,
            None => {
                return None;
            },
        };
        let technologies = match rec.list_field("technologies") {
            Some(v) => v,
            None => {
                return None;
            },
        };
        let image_url = match rec.opt_text_field("image_url") {
            Some(o) => o,
            None => {
                return None;
            },
        };
        let github_url = match rec.opt_text_field("github_url") {
            Some(o) => o,
            None => {
                return None;
            },
        };
        let demo_url = match rec.opt_text_field("demo_url") {
            Some(o) => o,
            None => {
                return None;
            },
        };
        let featured = match rec.bool_field("featured") {
            Some(b) => b,
            None => {
                return None;
            },
        };
        let created_at = match rec.text_field("created_at") {
            Some(s) => s,
            None => {
                return None;
            },
        };
        Some(
            Project {
                id,
                title,
                description,
                category,
                technologies,
                image_url,
                github_url,
                demo_url,
                featured,
                created_at,
            },
        )
    }
}

/// What parsing a whole returned array yields: every row parsed, in
/// the order the service sent them, or nothing when any row is
/// malformed.
pub open spec fn spec_parse_project_rows(rows: Seq<Record>) -> Option<Seq<ProjectView>>
    decreases rows.len(),
{
    if rows.len() == 0 {
        Some(Seq::empty())
    } else {
        let prefix = spec_parse_project_rows(rows.drop_last());
        let last = spec_parse_project_row(rows.last());
        if prefix is Some && last is Some {
            Some(prefix->0.push(last->0))
        } else {
            None
        }
    }
}

proof fn lemma_project_row_failure_fails_all(rows: Seq<Record>, i: int)
    requires
        0 <= i < rows.len(),
        spec_parse_project_row(rows[i]) is None,
    ensures
        spec_parse_project_rows(rows) is None,
    decreases rows.len(),
{
    if i == rows.len() - 1 {
        assert(rows.last() == rows[i]);
    } else {
        assert(rows.drop_last()[i] == rows[i]);
        lemma_project_row_failure_fails_all(rows.drop_last(), i);
    }
}

/// Interpret the response to the project-list query. Success yields
/// the parsed projects in the order the service sent them; any
/// failure yields the matching error and nothing else.
#[verifier::loop_isolation(false)]
pub fn get_projects(outcome: FetchOutcome) -> (r: Result<Vec<Project>, DataError>)
    ensures
        match r {
            Ok(projects) => {
                &&& outcome matches FetchOutcome::Response { status, rows }
                &&& spec_is_success(status)
                &&& rows matches Some(rs)
                &&& spec_parse_project_rows(rs@) == Some(projects.deep_view())
            },
            Err(e) => match outcome {
                FetchOutcome::TransportFailure(m) => e == DataError::NetworkError(m),
                FetchOutcome::Response { status, rows } => {
                    if !spec_is_success(status) {
                        e == DataError::RemoteServiceError(status)
                    } else if rows is None {
                        e == DataError::ParseError
                    } else {
                        e == DataError::ParseError && spec_parse_project_rows(rows->0@) is None
                    }
                },
            },
        },
{
    match outcome {
        FetchOutcome::TransportFailure(m) => Err(DataError::NetworkError(m)),
        FetchOutcome::Response { status, rows } => {
            if !is_success(status) {
                return Err(DataError::RemoteServiceError(status));
            }
            match rows {
                None => Err(DataError::ParseError),
                Some(rs) => {
                    let mut projects: Vec<Project> = Vec::new();
                    let mut i: usize = 0;
                    proof {
                        assert(rs@.take(0) =~= Seq::<Record>::empty());
                        assert(projects.deep_view() =~= Seq::<ProjectView>::empty());
                    }
                    while i < rs.len()
                        invariant
                            i <= rs@.len(),
                            spec_parse_project_rows(rs@.take(i as int)) == Some(
                                projects.deep_view(),
                            ),
                        decreases rs@.len() - i,
                    {
                        match Project::from_record(&rs[i]) {
                            Some(p) => {
                                let ghost prev: Seq<ProjectView> = projects.deep_view();
                                projects.push(p);
                                proof {
                                    assert(projects.deep_view() =~= prev.push(p@));
                                    assert(rs@.take(i as int + 1).drop_last() =~= rs@.take(
                                        i as int,
                                    ));
                                    assert(rs@.take(i as int + 1).last() == rs@[i as int]);
                                }
                            },
                            None => {
                                proof {
                                    lemma_project_row_failure_fails_all(rs@, i as int);
                                }
                                return Err(DataError::ParseError);
                            },
                        }
                        i += 1;
                    }
                    proof {
                        assert(rs@.take(rs@.len() as int) =~= rs@);
                    }
                    Ok(projects)
                },
            }
        },
    }
}

/// The projects belonging to one category, in their original order;
/// the page shows each category as its own section.
#[verifier::loop_isolation(false)]
pub fn in_category(projects: &Vec<Project>, category: &str) -> (r: Vec<Project>)
    ensures
        r.deep_view() == projects.deep_view().filter(
            |p: ProjectView| p.category == category@,
        ),
{
    let mut r: Vec<Project> = Vec::new();
    let mut i: usize = 0;
    proof {
        reveal(Seq::filter);
        assert(projects.deep_view().take(0) =~~= Seq::<ProjectView>::empty());
        assert(r.deep_view() =~~= projects.deep_view().take(0).filter(
            |p: ProjectView| p.category == category@,
        ));
    }
    while i < projects.len()
        invariant
            i <= projects@.len(),
            r.deep_view() == projects.deep_view().take(i as int).filter(
                |p: ProjectView| p.category == category@,
            ),
        decreases projects@.len() - i,
    {
        let ghost prev: Seq<ProjectView> = r.deep_view();
        if str_eq(projects[i].category.as_str(), category) {
            r.push(projects[i].clone());
            proof {
                assert(r.deep_view() =~~= prev.push(projects.deep_view()[i as int]));
            }
        }
        proof {
            reveal(Seq::filter);
            assert(projects.deep_view().take(i as int + 1).drop_last() =~~= projects.deep_view()
                .take(i as int));
            assert(projects.deep_view().take(i as int + 1).last() == projects.deep_view()[
                i as int]);
            assert(r.deep_view() =~~= projects.deep_view().take(i as int + 1).filter(
                |p: ProjectView| p.category == category@,
            ));
        }
        i += 1;
    }
    proof {
        assert(projects.deep_view().take(projects.deep_view().len() as int) =~~= projects
            .deep_view());
    }
    r
}

/// The query the project list is fetched with: every column the
/// entity reads, newest first, capped high enough to return all
/// rows.
pub fn projects_query(client: &ServerSupabaseClient) -> (q: ResourceQuery)
    ensures
        q.table@ == "projects"@,
        q.select matches Some(s) && s@
            == "id,title,description,category,technologies,github_url,demo_url,featured,created_at,image_url"@,
        q.filters@.len() == 0,
        q.order matches Some(o) && o@ == "created_at.desc"@,
        q.limit == Some(1000u64),
        q.single == false,
{
    client.table("projects").select(
        "id,title,description,category,technologies,github_url,demo_url,featured,created_at,image_url",
    ).order("created_at.desc").limit(1000)
}

} // verus!
