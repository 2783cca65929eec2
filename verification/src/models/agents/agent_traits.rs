use crate::helpers::text::{
    bool_text, listed_texts, optional_rendering, optional_text, quote_text, quoted_text,
    render_bool, render_list, render_optional, render_optional_text,
};
use vstd::prelude::*;
use vstd::string::StringExecFns;

verus! {

/// A JSON value of `serde_json`. The library carries such a value through
/// and never looks inside it.
#[verifier::external_type_specification]
#[verifier::external_body]
pub struct ExJsonValue(serde_json::Value);

/// Calls `Value::clone` of `serde_json`, which copies the value member by
/// member. The contract claims that the copy equals the value it was
/// made of.
#[verifier::external_body]
pub(crate) fn clone_json(value: &serde_json::Value) -> (copy: serde_json::Value)
    ensures
        copy == *value,
{
    value.clone()
}

/// What the project needs, as the solution architect has judged it.
#[derive(Debug, PartialEq, Eq, Clone, Copy, Structural)]
pub struct ProjectScope {
    pub is_crud_required: bool,
    pub is_user_login_and_logout: bool,
    pub is_external_urls_required: bool,
}

/// One REST endpoint of the generated server. `method` is compared as it
/// is written, and `is_route_dynamic` holds the words `true` or `false`
/// as text.
#[derive(Debug, PartialEq)]
pub struct RouteObject {
    pub is_route_dynamic: String,
    pub method: String,
    pub response_schema: serde_json::Value,
    pub route: String,
}

/// A [`RouteObject`] with its texts as sequences of characters.
pub struct RouteView {
    pub is_route_dynamic: Seq<char>,
    pub method: Seq<char>,
    pub response_schema: serde_json::Value,
    pub route: Seq<char>,
}

impl View for RouteObject {
    type V = RouteView;

    open spec fn view(&self) -> RouteView {
        RouteView {
            is_route_dynamic: self.is_route_dynamic@,
            method: self.method@,
            response_schema: self.response_schema,
            route: self.route@,
        }
    }
}

impl DeepView for RouteObject {
    type V = RouteView;

    open spec fn deep_view(&self) -> RouteView {
        self@
    }
}

impl Clone for RouteObject {
    fn clone(&self) -> (copy: Self)
        ensures
            copy@ == self@,
    {
        RouteObject {
            is_route_dynamic: self.is_route_dynamic.clone(),
            method: self.method.clone(),
            response_schema: clone_json(&self.response_schema),
            route: self.route.clone(),
        }
    }
}

/// A copy of a list of routes.
pub fn clone_routes(routes: &Vec<RouteObject>) -> (copy: Vec<RouteObject>)
    ensures
        copy.deep_view() == routes.deep_view(),
{
    let mut copy: Vec<RouteObject> = Vec::new();
    let mut index: usize = 0;
    while index < routes.len()
        invariant
            index <= routes.len(),
            copy.len() == index,
            forall|k: int| 0 <= k < index ==> copy[k]@ == routes[k]@,
        decreases routes.len() - index,
    {
        copy.push(routes[index].clone());
        index += 1;
    }
    assert(copy.deep_view() =~= routes.deep_view());
    copy
}

/// A copy of a list of texts.
pub fn clone_texts(texts: &Vec<String>) -> (copy: Vec<String>)
    ensures
        copy.deep_view() == texts.deep_view(),
{
    let mut copy: Vec<String> = Vec::new();
    let mut index: usize = 0;
    while index < texts.len()
        invariant
            index <= texts.len(),
            copy.len() == index,
            forall|k: int| 0 <= k < index ==> copy[k]@ == texts[k]@,
        decreases texts.len() - index,
    {
        copy.push(texts[index].clone());
        index += 1;
    }
    assert(copy.deep_view() =~= texts.deep_view());
    copy
}

/// The fact sheet of a project: the one record that the agents share. The
/// coordinator owns it and lends it to the agent whose turn it is.
#[derive(Debug, PartialEq)]
pub struct FactSheet {
    pub project_description: String,
    pub project_scope: Option<ProjectScope>,
    pub external_urls: Option<Vec<String>>,
    pub backend_code: Option<String>,
    pub api_endpoint_schema: Option<Vec<RouteObject>>,
}

/// A [`FactSheet`] with its texts as sequences of characters.
pub struct FactSheetView {
    pub project_description: Seq<char>,
    pub project_scope: Option<ProjectScope>,
    pub external_urls: Option<Seq<Seq<char>>>,
    pub backend_code: Option<Seq<char>>,
    pub api_endpoint_schema: Option<Seq<RouteView>>,
}

impl View for FactSheet {
    type V = FactSheetView;

    open spec fn view(&self) -> FactSheetView {
        FactSheetView {
            project_description: self.project_description@,
            project_scope: self.project_scope,
            external_urls: self.external_urls.deep_view(),
            backend_code: self.backend_code.deep_view(),
            api_endpoint_schema: self.api_endpoint_schema.deep_view(),
        }
    }
}

impl FactSheet {
    /// The fact sheet of a project of which only the description is known.
    pub fn new(project_description: String) -> (factsheet: Self)
        ensures
            factsheet@ == (FactSheetView {
                project_description: project_description@,
                project_scope: None,
                external_urls: None,
                backend_code: None,
                api_endpoint_schema: None,
            }),
    {
        FactSheet {
            project_description,
            project_scope: None,
            external_urls: None,
            backend_code: None,
            api_endpoint_schema: None,
        }
    }
}

/// The text that the `{:?}` format of `serde_json` prints for a value.
pub uninterp spec fn json_debug_text(value: serde_json::Value) -> Seq<char>;

/// Formats a JSON value with `{:?}`, that is with the `Debug` impl that
/// `serde_json` has for `Value`. The contract claims only that the result
/// is the text named [`json_debug_text`], a function of the value alone.
#[verifier::external_body]
pub(crate) fn debug_text_of_json(value: &serde_json::Value) -> (out: String)
    ensures
        out@ == json_debug_text(*value),
{
    format!("{:?}", value)
}

/// How a scope is written for the model.
pub open spec fn scope_text(scope: ProjectScope) -> Seq<char> {
    "ProjectScope { is_crud_required: "@ + bool_text(scope.is_crud_required)
        + ", is_user_login_and_logout: "@ + bool_text(scope.is_user_login_and_logout)
        + ", is_external_urls_required: "@ + bool_text(scope.is_external_urls_required) + " }"@
}

/// How a route is written for the model.
pub open spec fn route_text(route: RouteView) -> Seq<char> {
    "RouteObject { is_route_dynamic: "@ + quoted_text(route.is_route_dynamic) + ", method: "@
        + quoted_text(route.method) + ", response_schema: "@ + json_debug_text(
        route.response_schema,
    ) + ", route: "@ + quoted_text(route.route) + " }"@
}

/// How an optional scope is written for the model.
pub open spec fn optional_scope_text(scope: Option<ProjectScope>) -> Seq<char> {
    match scope {
        Some(inner) => optional_rendering(Some(scope_text(inner))),
        None => optional_rendering(None),
    }
}

/// How an optional list of URLs is written for the model.
pub open spec fn optional_urls_text(urls: Option<Seq<Seq<char>>>) -> Seq<char> {
    match urls {
        Some(listed) => optional_rendering(
            Some(listed_texts(listed.map_values(|url: Seq<char>| quoted_text(url)))),
        ),
        None => optional_rendering(None),
    }
}

/// How an optional list of routes is written for the model.
pub open spec fn optional_routes_text(routes: Option<Seq<RouteView>>) -> Seq<char> {
    match routes {
        Some(listed) => optional_rendering(
            Some(listed_texts(listed.map_values(|route: RouteView| route_text(route)))),
        ),
        None => optional_rendering(None),
    }
}

/// How a fact sheet is written for the model: its five fields by name, in
/// the layout of the `{:?}` format.
pub open spec fn factsheet_text(factsheet: FactSheetView) -> Seq<char> {
    "FactSheet { project_description: "@ + quoted_text(factsheet.project_description)
        + ", project_scope: "@ + optional_scope_text(factsheet.project_scope)
        + ", external_urls: "@ + optional_urls_text(factsheet.external_urls)
        + ", backend_code: "@ + optional_text(factsheet.backend_code)
        + ", api_endpoint_schema: "@ + optional_routes_text(factsheet.api_endpoint_schema)
        + " }"@
}

/// Writes a scope for the model.
pub fn render_scope(scope: &ProjectScope) -> (out: String)
    ensures
        out@ == scope_text(*scope),
{
    let mut out = String::from_str("ProjectScope { is_crud_required: ");
    out.append(render_bool(scope.is_crud_required));
    out.append(", is_user_login_and_logout: ");
    out.append(render_bool(scope.is_user_login_and_logout));
    out.append(", is_external_urls_required: ");
    out.append(render_bool(scope.is_external_urls_required));
    out.append(" }");
    out
}

/// Writes a route for the model.
pub fn render_route(route: &RouteObject) -> (out: String)
    ensures
        out@ == route_text(route@),
{
    let dynamic = quote_text(route.is_route_dynamic.as_str());
    let method = quote_text(route.method.as_str());
    let schema = debug_text_of_json(&route.response_schema);
    let path = quote_text(route.route.as_str());
    let mut out = String::from_str("RouteObject { is_route_dynamic: ");
    out.append(dynamic.as_str());
    out.append(", method: ");
    out.append(method.as_str());
    out.append(", response_schema: ");
    out.append(schema.as_str());
    out.append(", route: ");
    out.append(path.as_str());
    out.append(" }");
    out
}

/// Writes an optional scope for the model.
pub fn render_optional_scope(scope: &Option<ProjectScope>) -> (out: String)
    ensures
        out@ == optional_scope_text(*scope),
{
    match scope {
        Some(inner) => render_optional(Some(render_scope(inner))),
        None => render_optional(None),
    }
}

/// Writes an optional list of URLs for the model.
pub fn render_optional_urls(urls: &Option<Vec<String>>) -> (out: String)
    ensures
        out@ == optional_urls_text(urls.deep_view()),
{
    match urls {
        Some(listed) => {
            let mut quoted: Vec<String> = Vec::new();
            let mut index: usize = 0;
            while index < listed.len()
                invariant
                    index <= listed.len(),
                    quoted.len() == index,
                    forall|k: int| 0 <= k < index ==> quoted[k]@ == quoted_text(listed[k]@),
                decreases listed.len() - index,
            {
                quoted.push(quote_text(listed[index].as_str()));
                index += 1;
            }
            assert(quoted.deep_view() =~= listed.deep_view().map_values(
                |url: Seq<char>| quoted_text(url),
            ));
            render_optional(Some(render_list(&quoted)))
        },
        None => render_optional(None),
    }
}

/// Writes an optional list of routes for the model.
pub fn render_optional_routes(routes: &Option<Vec<RouteObject>>) -> (out: String)
    ensures
        out@ == optional_routes_text(routes.deep_view()),
{
    match routes {
        Some(listed) => {
            let mut written: Vec<String> = Vec::new();
            let mut index: usize = 0;
            while index < listed.len()
                invariant
                    index <= listed.len(),
                    written.len() == index,
                    forall|k: int| 0 <= k < index ==> written[k]@ == route_text(listed[k]@),
                decreases listed.len() - index,
            {
                written.push(render_route(&listed[index]));
                index += 1;
            }
            assert(written.deep_view() =~= listed.deep_view().map_values(
                |route: RouteView| route_text(route),
            ));
            render_optional(Some(render_list(&written)))
        },
        None => render_optional(None),
    }
}

/// Writes a fact sheet for the model.
pub fn render_factsheet(factsheet: &FactSheet) -> (out: String)
    ensures
        out@ == factsheet_text(factsheet@),
{
    let description = quote_text(factsheet.project_description.as_str());
    let scope = render_optional_scope(&factsheet.project_scope);
    let urls = render_optional_urls(&factsheet.external_urls);
    let code = render_optional_text(&factsheet.backend_code);
    let routes = render_optional_routes(&factsheet.api_endpoint_schema);
    let mut out = String::from_str("FactSheet { project_description: ");
    out.append(description.as_str());
    out.append(", project_scope: ");
    out.append(scope.as_str());
    out.append(", external_urls: ");
    out.append(urls.as_str());
    out.append(", backend_code: ");
    out.append(code.as_str());
    out.append(", api_endpoint_schema: ");
    out.append(routes.as_str());
    out.append(" }");
    out
}

} // verus!
