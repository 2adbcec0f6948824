use vstd::prelude::*;

use crate::store::TemplateSet;
use crate::template::{Template, TemplateView};

verus! {

pub open spec fn backend_api_view() -> TemplateView {
    TemplateView {
        name: "Backend API"@,
        description: "HTTP service with routes, services, tests and configuration"@,
        structure: seq!["src"@, "src/routes"@, "src/services"@, "tests"@, "config"@],
        files: seq![(".gitignore"@, "backend"@), (".env.example"@, "env"@)],
    }
}

pub open spec fn frontend_react_view() -> TemplateView {
    TemplateView {
        name: "Frontend React"@,
        description: "Single-page React application"@,
        structure: seq!["src"@, "src/components"@, "src/pages"@, "public"@, "tests"@],
        files: seq![(".gitignore"@, "frontend"@)],
    }
}

pub open spec fn python_service_view() -> TemplateView {
    TemplateView {
        name: "Python Service"@,
        description: "Python package with a test suite"@,
        structure: seq!["src"@, "tests"@],
        files: seq![(".gitignore"@, "python"@), ("requirements.txt"@, "requirements"@)],
    }
}

/// The templates that ship with the tool.
pub open spec fn builtin_view() -> Map<Seq<char>, TemplateView> {
    map![
        "backend-api"@ => backend_api_view(),
        "frontend-react"@ => frontend_react_view(),
        "python-service"@ => python_service_view(),
    ]
}

fn strings(a: &str, b: &str) -> (r: (String, String))
    ensures
        r.0@ == a@,
        r.1@ == b@,
{
    (String::from_str(a), String::from_str(b))
}

fn backend_api() -> (r: Template)
    ensures
        r@ == backend_api_view(),
{
    let r = Template {
        name: String::from_str("Backend API"),
        description: String::from_str("HTTP service with routes, services, tests and configuration"),
        structure: vec![
            String::from_str("src"),
            String::from_str("src/routes"),
            String::from_str("src/services"),
            String::from_str("tests"),
            String::from_str("config"),
        ],
        files: vec![strings(".gitignore", "backend"), strings(".env.example", "env")],
    };
    assert(r.structure.deep_view() =~= backend_api_view().structure);
    assert(r.files.deep_view() =~= backend_api_view().files);
    r
}

fn frontend_react() -> (r: Template)
    ensures
        r@ == frontend_react_view(),
{
    let r = Template {
        name: String::from_str("Frontend React"),
        description: String::from_str("Single-page React application"),
        structure: vec![
            String::from_str("src"),
            String::from_str("src/components"),
            String::from_str("src/pages"),
            String::from_str("public"),
            String::from_str("tests"),
        ],
        files: vec![strings(".gitignore", "frontend")],
    };
    assert(r.structure.deep_view() =~= frontend_react_view().structure);
    assert(r.files.deep_view() =~= frontend_react_view().files);
    r
}

fn python_service() -> (r: Template)
    ensures
        r@ == python_service_view(),
{
    let r = Template {
        name: String::from_str("Python Service"),
        description: String::from_str("Python package with a test suite"),
        structure: vec![String::from_str("src"), String::from_str("tests")],
        files: vec![strings(".gitignore", "python"), strings("requirements.txt", "requirements")],
    };
    assert(r.structure.deep_view() =~= python_service_view().structure);
    assert(r.files.deep_view() =~= python_service_view().files);
    r
}

/// The built-in template set.
pub fn builtin_templates() -> (r: TemplateSet)
    ensures
        r.wf(),
        r@ == builtin_view(),
{
    let mut r = TemplateSet::new();
    r.insert(String::from_str("backend-api"), backend_api());
    r.insert(String::from_str("frontend-react"), frontend_react());
    r.insert(String::from_str("python-service"), python_service());
    assert(r@ =~= builtin_view());
    r
}

} // verus!
