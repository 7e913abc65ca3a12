//! The fact sheet: the record of a project that is handed from phase to
//! phase, the routes that a server declares, and how both are written out
//! as text for a prompt.

use vstd::prelude::*;
use crate::text::{
    append_optional_text, append_quoted, append_quoted_list, joined, lemma_joined_push, listed,
    optional_text, quoted, same_text, LIST_CLOSING, LIST_OPENING, LIST_SEPARATOR, NOTHING,
    SOMETHING_CLOSING, SOMETHING_OPENING,
};

verus! {

pub const CHECKABLE_METHOD: &'static str = "get";

pub const STATIC_ROUTE_MARK: &'static str = "false";

pub const FLAG_SET: &'static str = "true";

pub const FLAG_CLEAR: &'static str = "false";

/// One HTTP route that a server declares.
///
/// `is_route_dynamic` is `"true"` or `"false"` as text, the form in which
/// the generative backend writes it. `request_body` and `response` hold
/// arbitrary JSON values as their JSON text.
#[derive(Debug, Clone, PartialEq)]
pub struct RouteObject {
    pub is_route_dynamic: String,
    pub method: String,
    pub request_body: String,
    pub response: String,
    pub route: String,
}

/// Mathematical content of a [`RouteObject`].
pub struct RouteObjectView {
    pub is_route_dynamic: Seq<char>,
    pub method: Seq<char>,
    pub request_body: Seq<char>,
    pub response: Seq<char>,
    pub route: Seq<char>,
}

impl RouteObjectView {
    /// A route can be probed when it answers to GET and takes no parameter.
    pub open spec fn is_checkable(self) -> bool {
        self.method == CHECKABLE_METHOD@ && self.is_route_dynamic == STATIC_ROUTE_MARK@
    }

    /// The route written out field by field.
    pub open spec fn rendered(self) -> Seq<char> {
        "RouteObject { is_route_dynamic: "@ + quoted(self.is_route_dynamic) + ", method: "@
            + quoted(self.method) + ", request_body: "@ + self.request_body + ", response: "@
            + self.response + ", route: "@ + quoted(self.route) + " }"@
    }
}

impl View for RouteObject {
    type V = RouteObjectView;

    open spec fn view(&self) -> RouteObjectView {
        RouteObjectView {
            is_route_dynamic: self.is_route_dynamic@,
            method: self.method@,
            request_body: self.request_body@,
            response: self.response@,
            route: self.route@,
        }
    }
}

impl DeepView for RouteObject {
    type V = RouteObjectView;

    open spec fn deep_view(&self) -> RouteObjectView {
        self@
    }
}

impl RouteObject {
    /// Copies the route, text for text.
    pub fn duplicate(&self) -> (copy: RouteObject)
        ensures
            copy@ == self@,
    {
        RouteObject {
            is_route_dynamic: self.is_route_dynamic.clone(),
            method: self.method.clone(),
            request_body: self.request_body.clone(),
            response: self.response.clone(),
            route: self.route.clone(),
        }
    }

    /// Whether the route can be probed: a GET route without parameters.
    pub fn is_checkable(&self) -> (checkable: bool)
        ensures
            checkable == self@.is_checkable(),
    {
        same_text(self.method.as_str(), CHECKABLE_METHOD) && same_text(
            self.is_route_dynamic.as_str(),
            STATIC_ROUTE_MARK,
        )
    }

    /// The route as text.
    pub fn render(&self) -> (text: String)
        ensures
            text@ == self@.rendered(),
    {
        let mut text = String::from_str("RouteObject { is_route_dynamic: ");
        append_quoted(&mut text, self.is_route_dynamic.as_str());
        text.append(", method: ");
        append_quoted(&mut text, self.method.as_str());
        text.append(", request_body: ");
        text.append(self.request_body.as_str());
        text.append(", response: ");
        text.append(self.response.as_str());
        text.append(", route: ");
        append_quoted(&mut text, self.route.as_str());
        text.append(" }");
        text
    }
}

/// The routes of a schema that can be probed, in the order of the schema.
pub open spec fn checkable_subset(routes: Seq<RouteObjectView>) -> Seq<RouteObjectView> {
    routes.filter(|route: RouteObjectView| route.is_checkable())
}

/// Selects the routes that can be probed: those that answer to GET and
/// take no parameter. Their order is that of the schema; nothing is added.
pub fn checkable_routes(routes: &Vec<RouteObject>) -> (selected: Vec<RouteObject>)
    ensures
        selected.deep_view() == checkable_subset(routes.deep_view()),
        forall|k: int| 0 <= k < selected.len() ==> (#[trigger] selected[k])@.is_checkable(),
{
    let ghost all = routes.deep_view();
    let ghost pred = |route: RouteObjectView| route.is_checkable();
    let mut selected: Vec<RouteObject> = Vec::new();
    let mut index: usize = 0;
    proof {
        assert(all.take(0) =~= Seq::<RouteObjectView>::empty());
        reveal(Seq::filter);
        assert(selected.deep_view() =~= all.take(0).filter(pred));
    }
    while index < routes.len()
        invariant
            index <= routes.len(),
            all == routes.deep_view(),
            pred == |route: RouteObjectView| route.is_checkable(),
            selected.deep_view() == all.take(index as int).filter(pred),
            forall|k: int| 0 <= k < selected.len() ==> (#[trigger] selected[k])@.is_checkable(),
        decreases routes.len() - index,
    {
        let ghost before = selected.deep_view();
        proof {
            all.take(index as int).lemma_filter_push(all[index as int], pred);
            assert(all.take(index + 1) =~= all.take(index as int).push(all[index as int]));
        }
        if routes[index].is_checkable() {
            selected.push(routes[index].duplicate());
            assert(selected.deep_view() =~= before.push(all[index as int]));
        }
        index += 1;
    }
    proof {
        assert(all.take(index as int) =~= all);
    }
    selected
}

/// What a project needs, as an earlier planning phase found it.
#[derive(Debug, Clone, Copy, PartialEq, Eq, Structural)]
pub struct ProjectScope {
    pub is_crud_required: bool,
    pub is_user_login_and_logout: bool,
    pub is_external_urls_requred: bool,
}

/// A flag as text: `true` or `false`.
pub open spec fn flag_text(flag: bool) -> Seq<char> {
    if flag {
        FLAG_SET@
    } else {
        FLAG_CLEAR@
    }
}

fn append_flag(out: &mut String, flag: bool)
    ensures
        final(out)@ == old(out)@ + flag_text(flag),
{
    if flag {
        out.append(FLAG_SET);
    } else {
        out.append(FLAG_CLEAR);
    }
}

impl ProjectScope {
    /// The scope written out field by field.
    pub open spec fn rendered(self) -> Seq<char> {
        "ProjectScope { is_crud_required: "@ + flag_text(self.is_crud_required)
            + ", is_user_login_and_logout: "@ + flag_text(self.is_user_login_and_logout)
            + ", is_external_urls_requred: "@ + flag_text(self.is_external_urls_requred) + " }"@
    }

    /// The scope as text.
    pub fn render(&self) -> (text: String)
        ensures
            text@ == self.rendered(),
    {
        let mut text = String::from_str("ProjectScope { is_crud_required: ");
        append_flag(&mut text, self.is_crud_required);
        text.append(", is_user_login_and_logout: ");
        append_flag(&mut text, self.is_user_login_and_logout);
        text.append(", is_external_urls_requred: ");
        append_flag(&mut text, self.is_external_urls_requred);
        text.append(" }");
        text
    }
}

/// An optional scope: `None`, or the scope inside `Some(..)`.
pub open spec fn optional_scope(scope: Option<ProjectScope>) -> Seq<char> {
    match scope {
        None => NOTHING@,
        Some(inner) => SOMETHING_OPENING@ + inner.rendered() + SOMETHING_CLOSING@,
    }
}

/// An optional list of quoted texts: `None`, or the list inside `Some(..)`.
pub open spec fn optional_texts(texts: Option<Seq<Seq<char>>>) -> Seq<char> {
    match texts {
        None => NOTHING@,
        Some(inner) => SOMETHING_OPENING@ + listed(inner.map_values(|t: Seq<char>| quoted(t)))
            + SOMETHING_CLOSING@,
    }
}

/// An optional list of routes: `None`, or the list inside `Some(..)`.
pub open spec fn optional_routes(routes: Option<Seq<RouteObjectView>>) -> Seq<char> {
    match routes {
        None => NOTHING@,
        Some(inner) => SOMETHING_OPENING@ + listed(
            inner.map_values(|route: RouteObjectView| route.rendered()),
        ) + SOMETHING_CLOSING@,
    }
}

fn append_optional_scope(out: &mut String, scope: &Option<ProjectScope>)
    ensures
        final(out)@ == old(out)@ + optional_scope(*scope),
{
    match scope {
        None => {
            out.append(NOTHING);
        },
        Some(inner) => {
            let text = inner.render();
            out.append(SOMETHING_OPENING);
            out.append(text.as_str());
            out.append(SOMETHING_CLOSING);
            assert(out@ =~= old(out)@ + optional_scope(*scope));
        },
    }
}

fn append_optional_texts(out: &mut String, texts: &Option<Vec<String>>)
    ensures
        final(out)@ == old(out)@ + optional_texts(texts.deep_view()),
{
    match texts {
        None => {
            out.append(NOTHING);
        },
        Some(inner) => {
            let mut list = String::new();
            append_quoted_list(&mut list, inner);
            out.append(SOMETHING_OPENING);
            out.append(list.as_str());
            out.append(SOMETHING_CLOSING);
            assert(list@ =~= listed(inner.deep_view().map_values(|t: Seq<char>| quoted(t))));
            assert(out@ =~= old(out)@ + optional_texts(texts.deep_view()));
        },
    }
}

fn render_routes(routes: &Vec<RouteObject>) -> (text: String)
    ensures
        text@ == listed(routes.deep_view().map_values(|route: RouteObjectView| route.rendered())),
{
    let ghost parts = routes.deep_view().map_values(|route: RouteObjectView| route.rendered());
    let mut text = String::from_str(LIST_OPENING);
    let mut index: usize = 0;
    proof {
        assert(joined(parts.take(0)) =~= Seq::<char>::empty());
        assert(text@ =~= LIST_OPENING@ + joined(parts.take(0)));
    }
    while index < routes.len()
        invariant
            index <= routes.len(),
            parts == routes.deep_view().map_values(|route: RouteObjectView| route.rendered()),
            text@ == LIST_OPENING@ + joined(parts.take(index as int)),
        decreases routes.len() - index,
    {
        if index > 0 {
            text.append(LIST_SEPARATOR);
        }
        let part = routes[index].render();
        text.append(part.as_str());
        proof {
            let before = parts.take(index as int);
            lemma_joined_push(before, parts[index as int]);
            assert(parts.take(index + 1) =~= before.push(parts[index as int]));
            assert(text@ =~= LIST_OPENING@ + joined(parts.take(index + 1)));
        }
        index += 1;
    }
    text.append(LIST_CLOSING);
    proof {
        assert(parts.take(index as int) =~= parts);
    }
    text
}

fn append_optional_routes(out: &mut String, routes: &Option<Vec<RouteObject>>)
    ensures
        final(out)@ == old(out)@ + optional_routes(routes.deep_view()),
{
    match routes {
        None => {
            out.append(NOTHING);
        },
        Some(inner) => {
            let list = render_routes(inner);
            out.append(SOMETHING_OPENING);
            out.append(list.as_str());
            out.append(SOMETHING_CLOSING);
            assert(out@ =~= old(out)@ + optional_routes(routes.deep_view()));
        },
    }
}

/// The accumulating record of one project.
#[derive(Debug, Clone, PartialEq)]
pub struct FactSheet {
    /// What the user asked for. Set once, before any agent runs.
    pub project_description: String,
    pub project_scope: Option<ProjectScope>,
    pub external_urls: Option<Vec<String>>,
    /// The latest generated source of the server.
    pub backend_code: Option<String>,
    /// The routes of the server that can be probed.
    pub api_endpoint_schema: Option<Vec<RouteObject>>,
}

/// Mathematical content of a [`FactSheet`].
pub struct FactSheetView {
    pub project_description: Seq<char>,
    pub project_scope: Option<ProjectScope>,
    pub external_urls: Option<Seq<Seq<char>>>,
    pub backend_code: Option<Seq<char>>,
    pub api_endpoint_schema: Option<Seq<RouteObjectView>>,
}

impl FactSheetView {
    /// The stored schema, if there is one, holds only routes that can be probed.
    pub open spec fn schema_is_checkable(self) -> bool {
        self.api_endpoint_schema matches Some(routes) ==> forall|k: int|
            0 <= k < routes.len() ==> (#[trigger] routes[k]).is_checkable()
    }

    /// The fact sheet written out field by field.
    pub open spec fn rendered(self) -> Seq<char> {
        "FactSheet { project_description: "@ + quoted(self.project_description)
            + ", project_scope: "@ + optional_scope(self.project_scope) + ", external_urls: "@
            + optional_texts(self.external_urls) + ", backend_code: "@ + optional_text(
            self.backend_code,
        ) + ", api_endpoint_schema: "@ + optional_routes(self.api_endpoint_schema) + " }"@
    }
}

impl View for FactSheet {
    type V = FactSheetView;

    open spec fn view(&self) -> FactSheetView {
        FactSheetView {
            project_description: self.project_description@,
            project_scope: self.project_scope,
            external_urls: self.external_urls.deep_view(),
            backend_code: self.backend_code.deep_view(),
            api_endpoint_schema: self.api_endpoint_schema.deep_view(),
        }
    }
}

impl FactSheet {
    /// A fact sheet that holds a description and nothing else yet.
    pub fn new(project_description: String) -> (sheet: FactSheet)
        ensures
            sheet@ == (FactSheetView {
                project_description: project_description@,
                project_scope: None,
                external_urls: None,
                backend_code: None,
                api_endpoint_schema: None,
            }),
    {
        FactSheet {
            project_description,
            project_scope: None,
            external_urls: None,
            backend_code: None,
            api_endpoint_schema: None,
        }
    }

    /// The fact sheet as text.
    pub fn render(&self) -> (text: String)
        ensures
            text@ == self@.rendered(),
    {
        let mut text = String::from_str("FactSheet { project_description: ");
        append_quoted(&mut text, self.project_description.as_str());
        text.append(", project_scope: ");
        append_optional_scope(&mut text, &self.project_scope);
        text.append(", external_urls: ");
        append_optional_texts(&mut text, &self.external_urls);
        text.append(", backend_code: ");
        append_optional_text(&mut text, &self.backend_code);
        text.append(", api_endpoint_schema: ");
        append_optional_routes(&mut text, &self.api_endpoint_schema);
        text.append(" }");
        text
    }
}

} // verus!
