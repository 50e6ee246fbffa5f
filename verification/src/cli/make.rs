//! What the generators of `cargo kit` write: file contents, file names, the lines
//! they add to `mod.rs` files, and templates with their placeholders filled in.
use vstd::prelude::*;
use vstd::string::*;
use crate::text::{decimal, u64_to_decimal, str_eq, views};
use super::commands::ResourceType;

verus! {

/// The lower-case form of `s`, as `str::to_lowercase` computes it (Unicode case mapping).
pub uninterp spec fn lowercase(s: Seq<char>) -> Seq<char>;

/// `str::to_lowercase`. Trusted: the result is named `lowercase` of the argument.
#[verifier::external_body]
pub(crate) fn to_lowercase(s: &str) -> (r: String)
    ensures
        r@ == lowercase(s@),
{
    s.to_lowercase()
}

/// The plural of an English word, as `inflector::string::pluralize::to_plural` forms it.
pub uninterp spec fn plural(word: Seq<char>) -> Seq<char>;

/// `inflector::string::pluralize::to_plural`. Trusted: the result is named `plural` of
/// the argument.
#[verifier::external_body]
pub(crate) fn to_plural(word: &str) -> (r: String)
    ensures
        r@ == plural(word@),
{
    inflector::string::pluralize::to_plural(word)
}

/// Whether `sub` occurs in `s`.
pub open spec fn contains_sub(s: Seq<char>, sub: Seq<char>) -> bool {
    exists|i: int| 0 <= i && i + sub.len() <= s.len() && #[trigger] s.subrange(i, i + sub.len()) == sub
}

/// Whether `sub` occurs in `s`, as `str::contains` tests it.
pub fn contains(s: &str, sub: &str) -> (b: bool)
    ensures
        b == contains_sub(s@, sub@),
{
    let n = s.unicode_len();
    let m = sub.unicode_len();
    if m > n {
        return false;
    }
    if m == 0 {
        assert(s@.subrange(0int, 0int + sub@.len()) =~= sub@);
        return true;
    }
    let mut i: usize = 0;
    while i <= n - m
        invariant
            n == s@.len(),
            m == sub@.len(),
            0 < m <= n,
            i <= n - m + 1,
            forall|j: int| 0 <= j < i ==> #[trigger] s@.subrange(j, j + m) != sub@,
        decreases n - m + 1 - i,
    {
        if str_eq(s.substring_char(i, i + m), sub) {
            assert(s@.subrange(i as int, i + sub@.len()) == sub@);
            return true;
        }
        i = i + 1;
    }
    assert forall|j: int| 0 <= j && j + sub@.len() <= s@.len() implies #[trigger] s@.subrange(j, j + sub@.len()) != sub@ by {
        assert(j < i);
    }
    false
}

/// `s` with each non-overlapping occurrence of `pat`, from the left, replaced by `rep`
/// (as `str::replace` does for a non-empty pattern).
pub open spec fn replace_all(s: Seq<char>, pat: Seq<char>, rep: Seq<char>) -> Seq<char>
    decreases s.len(),
{
    if pat.len() == 0 || s.len() < pat.len() {
        s
    } else if s.subrange(0, pat.len() as int) == pat {
        rep + replace_all(s.skip(pat.len() as int), pat, rep)
    } else {
        seq![s[0]] + replace_all(s.skip(1), pat, rep)
    }
}

/// Replaces every occurrence of the non-empty `pat` in `s` with `rep`.
pub fn replace(s: &str, pat: &str, rep: &str) -> (r: String)
    requires
        pat@.len() > 0,
    ensures
        r@ == replace_all(s@, pat@, rep@),
{
    let n = s.unicode_len();
    let m = pat.unicode_len();
    let mut res = String::new();
    let mut i: usize = 0;
    assert(s@.skip(0) =~= s@);
    while i < n
        invariant
            n == s@.len(),
            m == pat@.len(),
            m > 0,
            i <= n,
            replace_all(s@, pat@, rep@) == res@ + replace_all(s@.skip(i as int), pat@, rep@),
        decreases n - i,
    {
        let ghost rest = s@.skip(i as int);
        if m <= n - i && str_eq(s.substring_char(i, i + m), pat) {
            assert(rest.subrange(0, m as int) =~= s@.subrange(i as int, i + m));
            assert(rest.skip(m as int) =~= s@.skip(i + m));
            let ghost before = res@;
            res.append(rep);
            assert(res@ + replace_all(s@.skip(i + m), pat@, rep@) =~= before + replace_all(rest, pat@, rep@));
            i = i + m;
        } else {
            assert(rest.skip(1) =~= s@.skip(i + 1));
            if m <= n - i {
                assert(rest.subrange(0, m as int) =~= s@.subrange(i as int, i + m));
            }
            let ghost before = res@;
            let c = s.substring_char(i, i + 1);
            assert(c@ =~= seq![rest[0]]);
            res.append(c);
            assert(res@ + replace_all(s@.skip(i + 1), pat@, rep@) =~= before + replace_all(rest, pat@, rep@));
            i = i + 1;
        }
    }
    assert(s@.skip(n as int) =~= Seq::<char>::empty());
    assert(res@ + Seq::<char>::empty() =~= res@);
    res
}

/// The entity struct of a new model.
pub open spec fn entity_file(model_name: Seq<char>) -> Seq<char> {
    "use serde::{Deserialize, Serialize};\nuse sqlx::FromRow;\nuse rustavel_derive::GenerateValidationFields;\nuse crate::framework::database::model::{Field, ModelValidation};\nuse validator::ValidationError;\n\n#[derive(Debug, Serialize, Deserialize, FromRow, GenerateValidationFields)]\npub struct "@
        + model_name
        + " {\n    #[sqlx(default)]\n    pub id: i64,\n    // TODO: Add your fields here\n    pub created_at: i64,\n    pub updated_at: i64,\n}"@
}

/// The entity file `make_model` writes.
pub fn entity_file_content(model_name: &str) -> (s: String)
    ensures
        s@ == entity_file(model_name@),
{
    let mut s = String::from_str("use serde::{Deserialize, Serialize};\nuse sqlx::FromRow;\nuse rustavel_derive::GenerateValidationFields;\nuse crate::framework::database::model::{Field, ModelValidation};\nuse validator::ValidationError;\n\n#[derive(Debug, Serialize, Deserialize, FromRow, GenerateValidationFields)]\npub struct ");
    s.append(model_name);
    s.append(" {\n    #[sqlx(default)]\n    pub id: i64,\n    // TODO: Add your fields here\n    pub created_at: i64,\n    pub updated_at: i64,\n}");
    s
}

/// The model implementation of a new model, stored in `table_name`.
pub open spec fn model_file(model_name: Seq<char>, table_name: Seq<char>) -> Seq<char> {
    "use crate::framework::prelude::*;\nuse crate::app::entities::"@
        + model_name
        + ";\n\nimpl "@
        + model_name
        + " {\n    /// Get recent records\n    pub async fn recent(limit: i64) -> Result<Vec<Self>, DatabaseError> {\n        QueryBuilder::table(Self::table_name())\n            .order_by(\"created_at\", \"DESC\")\n            .limit(limit)\n            .get::<Self>()\n            .await\n    }\n}\n\nimpl ValidationRules for "@
        + model_name
        + " {\n    fn validate_rules(&self) -> Result<(), ValidationError> {\n        // TODO: Add your validation rules here\n        Ok(())\n    }\n}\n\n#[async_trait]\nimpl Model for "@
        + model_name
        + " {\n    fn table_name() -> &'static str {\n        \""@
        + table_name
        + "\"\n    }\n\n    fn id(&self) -> i64 {\n        self.id\n    }\n}"@
}

/// The model file `make_model` writes.
pub fn model_file_content(model_name: &str, table_name: &str) -> (s: String)
    ensures
        s@ == model_file(model_name@, table_name@),
{
    let mut s = String::from_str("use crate::framework::prelude::*;\nuse crate::app::entities::");
    s.append(model_name);
    s.append(";\n\nimpl ");
    s.append(model_name);
    s.append(" {\n    /// Get recent records\n    pub async fn recent(limit: i64) -> Result<Vec<Self>, DatabaseError> {\n        QueryBuilder::table(Self::table_name())\n            .order_by(\"created_at\", \"DESC\")\n            .limit(limit)\n            .get::<Self>()\n            .await\n    }\n}\n\nimpl ValidationRules for ");
    s.append(model_name);
    s.append(" {\n    fn validate_rules(&self) -> Result<(), ValidationError> {\n        // TODO: Add your validation rules here\n        Ok(())\n    }\n}\n\n#[async_trait]\nimpl Model for ");
    s.append(model_name);
    s.append(" {\n    fn table_name() -> &'static str {\n        \"");
    s.append(table_name);
    s.append("\"\n    }\n\n    fn id(&self) -> i64 {\n        self.id\n    }\n}");
    s
}

/// The start of a controller file.
pub open spec fn controller_head(imports: Seq<char>, name: Seq<char>, lower: Seq<char>, controller_name: Seq<char>) -> Seq<char> {
    imports
        + "\n\n/// "@
        + name
        + " Controller handling all "@
        + lower
        + "-related endpoints\npub struct "@
        + controller_name
        + " {}\n\nimpl "@
        + controller_name
        + " {"@
}

/// The start of a controller file, up to the opening of its `impl` block.
pub fn controller_head_content(imports: &str, name: &str, lower: &str, controller_name: &str) -> (s: String)
    ensures
        s@ == controller_head(imports@, name@, lower@, controller_name@),
{
    let mut s = String::from_str(imports);
    s.append("\n\n/// ");
    s.append(name);
    s.append(" Controller handling all ");
    s.append(lower);
    s.append("-related endpoints\npub struct ");
    s.append(controller_name);
    s.append(" {}\n\nimpl ");
    s.append(controller_name);
    s.append(" {");
    s
}

/// The handlers of a controller over a model with DTOs.
pub open spec fn controller_methods(name: Seq<char>, lower: Seq<char>) -> Seq<char> {
    "\n    /// Returns a list of "@
        + lower
        + "s\n    pub async fn index() -> Json<"@
        + name
        + "ListResponse> {\n        match "@
        + name
        + "::all().await {\n            Ok(items) => Json("@
        + name
        + "ListResponse::from(items)),\n            Err(e) => panic!(\"Database error: {}\", e), // In a real app, use proper error handling\n        }\n    }\n\n    /// Returns details for a specific "@
        + lower
        + "\n    pub async fn show(Path(id): Path<i64>) -> Json<Option<"@
        + name
        + "Response>> {\n        match "@
        + name
        + "::find(id).await {\n            Ok(Some(item)) => Json(Some("@
        + name
        + "Response::from(item))),\n            Ok(None) => Json(None),\n            Err(e) => panic!(\"Database error: {}\", e), // In a real app, use proper error handling\n        }\n    }\n\n    /// Creates a new "@
        + lower
        + "\n    pub async fn store(Json(payload): Json<Create"@
        + name
        + "Request>) -> Json<"@
        + name
        + "Response> {\n        let item: "@
        + name
        + " = payload.into();\n        match "@
        + name
        + "::create(item).await {\n            Ok(created) => Json("@
        + name
        + "Response::from(created)),\n            Err(e) => panic!(\"Database error: {}\", e), // In a real app, use proper error handling\n        }\n    }"@
}

/// The `index`, `show` and `store` handlers of a controller over a model with DTOs.
pub fn controller_methods_content(name: &str, lower: &str) -> (s: String)
    ensures
        s@ == controller_methods(name@, lower@),
{
    let mut s = String::from_str("\n    /// Returns a list of ");
    s.append(lower);
    s.append("s\n    pub async fn index() -> Json<");
    s.append(name);
    s.append("ListResponse> {\n        match ");
    s.append(name);
    s.append("::all().await {\n            Ok(items) => Json(");
    s.append(name);
    s.append("ListResponse::from(items)),\n            Err(e) => panic!(\"Database error: {}\", e), // In a real app, use proper error handling\n        }\n    }\n\n    /// Returns details for a specific ");
    s.append(lower);
    s.append("\n    pub async fn show(Path(id): Path<i64>) -> Json<Option<");
    s.append(name);
    s.append("Response>> {\n        match ");
    s.append(name);
    s.append("::find(id).await {\n            Ok(Some(item)) => Json(Some(");
    s.append(name);
    s.append("Response::from(item))),\n            Ok(None) => Json(None),\n            Err(e) => panic!(\"Database error: {}\", e), // In a real app, use proper error handling\n        }\n    }\n\n    /// Creates a new ");
    s.append(lower);
    s.append("\n    pub async fn store(Json(payload): Json<Create");
    s.append(name);
    s.append("Request>) -> Json<");
    s.append(name);
    s.append("Response> {\n        let item: ");
    s.append(name);
    s.append(" = payload.into();\n        match ");
    s.append(name);
    s.append("::create(item).await {\n            Ok(created) => Json(");
    s.append(name);
    s.append("Response::from(created)),\n            Err(e) => panic!(\"Database error: {}\", e), // In a real app, use proper error handling\n        }\n    }");
    s
}

/// The DTO file of a resource.
pub open spec fn dto_file(imports: Seq<char>, name: Seq<char>) -> Seq<char> {
    imports
        + "\n\n#[derive(Serialize)]\npub struct "@
        + name
        + "Response {\n    pub id: i64,\n    // Add your fields here\n    pub created_at: i64,\n    pub updated_at: i64,\n}\n\n#[derive(Deserialize, Validate)]\npub struct Create"@
        + name
        + "Request {\n    // Add your validation fields here\n}\n\n#[derive(Serialize)]\npub struct "@
        + name
        + "ListResponse {\n    pub data: Vec<"@
        + name
        + "Response>,\n}\n\nimpl From<Vec<"@
        + name
        + ">> for "@
        + name
        + "ListResponse {\n    fn from(items: Vec<"@
        + name
        + ">) -> Self {\n        Self {\n            data: items.into_iter().map("@
        + name
        + "Response::from).collect(),\n        }\n    }\n}\n\nimpl From<"@
        + name
        + "> for "@
        + name
        + "Response {\n    fn from(item: "@
        + name
        + ") -> Self {\n        Self {\n            id: item.id,\n            // Map your fields here\n            created_at: item.created_at,\n            updated_at: item.updated_at,\n        }\n    }\n}\n\nimpl From<Create"@
        + name
        + "Request> for "@
        + name
        + " {\n    fn from(_req: Create"@
        + name
        + "Request) -> Self {\n        use std::time::{SystemTime, UNIX_EPOCH};\n        let now = SystemTime::now()\n            .duration_since(UNIX_EPOCH)\n            .unwrap()\n            .as_secs() as i64;\n            \n        Self {\n            id: 0,\n            // Map your fields here\n            created_at: now,\n            updated_at: now,\n        }\n    }\n}"@
}

/// The DTO file `make_dto` writes after `imports`.
pub fn dto_file_content(imports: &str, name: &str) -> (s: String)
    ensures
        s@ == dto_file(imports@, name@),
{
    let mut s = String::from_str(imports);
    s.append("\n\n#[derive(Serialize)]\npub struct ");
    s.append(name);
    s.append("Response {\n    pub id: i64,\n    // Add your fields here\n    pub created_at: i64,\n    pub updated_at: i64,\n}\n\n#[derive(Deserialize, Validate)]\npub struct Create");
    s.append(name);
    s.append("Request {\n    // Add your validation fields here\n}\n\n#[derive(Serialize)]\npub struct ");
    s.append(name);
    s.append("ListResponse {\n    pub data: Vec<");
    s.append(name);
    s.append("Response>,\n}\n\nimpl From<Vec<");
    s.append(name);
    s.append(">> for ");
    s.append(name);
    s.append("ListResponse {\n    fn from(items: Vec<");
    s.append(name);
    s.append(">) -> Self {\n        Self {\n            data: items.into_iter().map(");
    s.append(name);
    s.append("Response::from).collect(),\n        }\n    }\n}\n\nimpl From<");
    s.append(name);
    s.append("> for ");
    s.append(name);
    s.append("Response {\n    fn from(item: ");
    s.append(name);
    s.append(") -> Self {\n        Self {\n            id: item.id,\n            // Map your fields here\n            created_at: item.created_at,\n            updated_at: item.updated_at,\n        }\n    }\n}\n\nimpl From<Create");
    s.append(name);
    s.append("Request> for ");
    s.append(name);
    s.append(" {\n    fn from(_req: Create");
    s.append(name);
    s.append("Request) -> Self {\n        use std::time::{SystemTime, UNIX_EPOCH};\n        let now = SystemTime::now()\n            .duration_since(UNIX_EPOCH)\n            .unwrap()\n            .as_secs() as i64;\n            \n        Self {\n            id: 0,\n            // Map your fields here\n            created_at: now,\n            updated_at: now,\n        }\n    }\n}");
    s
}

/// The props type of an Inertia page.
pub open spec fn page_dto_file(name: Seq<char>) -> Seq<char> {
    "use crate::framework::prelude::*;\nuse ts_export_derive::auto_ts_export;\n\n#[auto_ts_export]\npub struct "@
        + name
        + "Props {\n    pub title: String,\n    // TODO: Add your page props here\n}"@
}

/// The props file of an Inertia page.
pub fn page_dto_file_content(name: &str) -> (s: String)
    ensures
        s@ == page_dto_file(name@),
{
    let mut s = String::from_str("use crate::framework::prelude::*;\nuse ts_export_derive::auto_ts_export;\n\n#[auto_ts_export]\npub struct ");
    s.append(name);
    s.append("Props {\n    pub title: String,\n    // TODO: Add your page props here\n}");
    s
}

/// The controller that renders an Inertia page.
pub open spec fn page_controller_file(name: Seq<char>, lower: Seq<char>, controller_name: Seq<char>) -> Seq<char> {
    "use crate::framework::prelude::*;\nuse crate::app::dtos::"@
        + lower
        + "::"@
        + name
        + "Props;\n\npub struct "@
        + controller_name
        + ";\n\nimpl "@
        + controller_name
        + " {\n    pub async fn show(inertia: Inertia) -> impl IntoResponse {\n        inertia.render(\""@
        + name
        + "\", "@
        + name
        + "Props {\n            title: String::from(\""@
        + name
        + "\"),\n        })\n    }\n}"@
}

/// The controller of an Inertia page.
pub fn page_controller_file_content(name: &str, lower: &str, controller_name: &str) -> (s: String)
    ensures
        s@ == page_controller_file(name@, lower@, controller_name@),
{
    let mut s = String::from_str("use crate::framework::prelude::*;\nuse crate::app::dtos::");
    s.append(lower);
    s.append("::");
    s.append(name);
    s.append("Props;\n\npub struct ");
    s.append(controller_name);
    s.append(";\n\nimpl ");
    s.append(controller_name);
    s.append(" {\n    pub async fn show(inertia: Inertia) -> impl IntoResponse {\n        inertia.render(\"");
    s.append(name);
    s.append("\", ");
    s.append(name);
    s.append("Props {\n            title: String::from(\"");
    s.append(name);
    s.append("\"),\n        })\n    }\n}");
    s
}

/// The React component of an Inertia page.
pub open spec fn page_component_file(name: Seq<char>) -> Seq<char> {
    "import React from 'react';\nimport { Head } from '@inertiajs/react';\nimport type { "@
        + name
        + "Props } from '../types/generated';\n\ninterface Props extends "@
        + name
        + "Props {}\n\nexport default function "@
        + name
        + "({ title }: Props) {\n    return (\n        <>\n            <Head title={title} />\n            <div className=\"max-w-7xl mx-auto py-12 px-4 sm:px-6 lg:px-8\">\n                <div className=\"text-center\">\n                    <h1 className=\"text-4xl font-bold text-gray-900 sm:text-5xl\">\n                        {title}\n                    </h1>\n                    {/* Add your page content here */}\n                </div>\n            </div>\n        </>\n    );\n}"@
}

/// The React component of an Inertia page.
pub fn page_component_file_content(name: &str) -> (s: String)
    ensures
        s@ == page_component_file(name@),
{
    let mut s = String::from_str("import React from 'react';\nimport { Head } from '@inertiajs/react';\nimport type { ");
    s.append(name);
    s.append("Props } from '../types/generated';\n\ninterface Props extends ");
    s.append(name);
    s.append("Props {}\n\nexport default function ");
    s.append(name);
    s.append("({ title }: Props) {\n    return (\n        <>\n            <Head title={title} />\n            <div className=\"max-w-7xl mx-auto py-12 px-4 sm:px-6 lg:px-8\">\n                <div className=\"text-center\">\n                    <h1 className=\"text-4xl font-bold text-gray-900 sm:text-5xl\">\n                        {title}\n                    </h1>\n                    {/* Add your page content here */}\n                </div>\n            </div>\n        </>\n    );\n}");
    s
}


/// Whether `s` ends with `suffix`.
pub open spec fn ends_with(s: Seq<char>, suffix: Seq<char>) -> bool {
    suffix.len() <= s.len() && s.subrange(s.len() - suffix.len(), s.len() as int) == suffix
}

/// Whether `s` ends with `suffix`, as `str::ends_with` tests it.
pub fn has_suffix(s: &str, suffix: &str) -> (b: bool)
    ensures
        b == ends_with(s@, suffix@),
{
    let n = s.unicode_len();
    let m = suffix.unicode_len();
    if m > n {
        return false;
    }
    str_eq(s.substring_char(n - m, n), suffix)
}

/// The name of the controller generated for `name`: `name` itself when it already ends
/// in `Controller`.
pub open spec fn controller_type_name(name: Seq<char>) -> Seq<char> {
    if ends_with(name, "Controller"@) { name } else { name + "Controller"@ }
}

/// The `use` lines at the top of a generated controller.
pub open spec fn controller_imports(name: Seq<char>, lower: Seq<char>, model_exists: bool, dto_exists: bool) -> Seq<char> {
    let base = "use crate::framework::prelude::*;"@;
    let with_model = if model_exists { base + "\nuse crate::app::entities::"@ + name + ";"@ } else { base };
    if dto_exists {
        with_model + "\nuse crate::app::dtos::"@ + lower + "::{Create"@ + name + "Request, "@ + name
            + "Response, "@ + name + "ListResponse};"@
    } else {
        with_model
    }
}

/// The body of a generated controller: the handlers when both the model and its DTOs
/// exist, otherwise notes on what to create first.
pub open spec fn controller_body(name: Seq<char>, lower: Seq<char>, model_exists: bool, dto_exists: bool) -> Seq<char> {
    if model_exists && dto_exists {
        controller_methods(name, lower)
    } else {
        let todo = "\n    // TODO: Add your controller methods here\n"@;
        let with_model_note = if !model_exists {
            todo + "    // Note: Create a model first using: cargo kit make:model "@ + name + "\n"@
        } else {
            todo
        };
        if !dto_exists {
            with_model_note + "    // Note: Create DTOs first using: cargo kit make:dto "@ + name + "\n"@
        } else {
            with_model_note
        }
    }
}

/// The controller file generated for `name` (whose lower-case form is `lower`).
pub open spec fn controller_file(name: Seq<char>, lower: Seq<char>, model_exists: bool, dto_exists: bool) -> Seq<char> {
    controller_head(controller_imports(name, lower, model_exists, dto_exists), name, lower, controller_type_name(name))
        + "\n"@ + controller_body(name, lower, model_exists, dto_exists) + "\n}"@
}

/// The controller file `make_controller` writes, given whether a model and DTOs named
/// `name` already exist.
pub fn controller_file_content(name: &str, lower: &str, model_exists: bool, dto_exists: bool) -> (s: String)
    ensures
        s@ == controller_file(name@, lower@, model_exists, dto_exists),
{
    let mut imports = String::from_str("use crate::framework::prelude::*;");
    if model_exists {
        imports.append("\nuse crate::app::entities::");
        imports.append(name);
        imports.append(";");
    }
    if dto_exists {
        imports.append("\nuse crate::app::dtos::");
        imports.append(lower);
        imports.append("::{Create");
        imports.append(name);
        imports.append("Request, ");
        imports.append(name);
        imports.append("Response, ");
        imports.append(name);
        imports.append("ListResponse};");
    }
    let controller_name = if has_suffix(name, "Controller") {
        String::from_str(name)
    } else {
        String::from_str(name).concat("Controller")
    };
    let mut body = if model_exists && dto_exists {
        controller_methods_content(name, lower)
    } else {
        let mut b = String::from_str("\n    // TODO: Add your controller methods here\n");
        if !model_exists {
            b.append("    // Note: Create a model first using: cargo kit make:model ");
            b.append(name);
            b.append("\n");
        }
        if !dto_exists {
            b.append("    // Note: Create DTOs first using: cargo kit make:dto ");
            b.append(name);
            b.append("\n");
        }
        b
    };
    let mut s = controller_head_content(imports.as_str(), name, lower, controller_name.as_str());
    s.append("\n");
    s.append(body.as_str());
    s.append("\n}");
    s
}

/// The `use` lines at the top of a generated DTO file.
pub open spec fn dto_imports(name: Seq<char>, model_exists: bool) -> Seq<char> {
    let base = "use crate::framework::prelude::*;"@;
    let with_model = if model_exists { base + "\nuse crate::app::entities::"@ + name + ";"@ } else { base };
    with_model + "\nuse validator::Validate;"@
}

/// The DTO file `make_dto` writes, given whether a model named `name` exists.
pub fn dto_content(name: &str, model_exists: bool) -> (s: String)
    ensures
        s@ == dto_file(dto_imports(name@, model_exists), name@),
{
    let mut imports = String::from_str("use crate::framework::prelude::*;");
    if model_exists {
        imports.append("\nuse crate::app::entities::");
        imports.append(name);
        imports.append(";");
    }
    imports.append("\nuse validator::Validate;");
    dto_file_content(imports.as_str(), name)
}

/// `content` with `line` appended when it does not contain it already.
pub open spec fn with_line(content: Seq<char>, line: Seq<char>) -> Seq<char> {
    if contains_sub(content, line) { content } else { content + line }
}

/// `content` with `line` added on a line of its own when it does not contain it already.
pub open spec fn with_separated_line(content: Seq<char>, line: Seq<char>) -> Seq<char> {
    if contains_sub(content, line) {
        content
    } else if content.len() == 0 {
        line
    } else {
        content + "\n"@ + line
    }
}

/// Appends `line` to `content` unless it is already there.
pub fn add_line(content: &mut String, line: &str)
    ensures
        final(content)@ == with_line(old(content)@, line@),
{
    if !contains(content.as_str(), line) {
        content.append(line);
    }
}

/// Adds `line` on a line of its own to `content` unless it is already there.
pub fn add_separated_line(content: &mut String, line: &str)
    ensures
        final(content)@ == with_separated_line(old(content)@, line@),
{
    if !contains(content.as_str(), line) {
        if content.as_str().unicode_len() != 0 {
            content.append("\n");
        }
        content.append(line);
    }
}

/// The line that declares and re-exports the controller module of `lower`.
pub open spec fn controller_mod_line(lower: Seq<char>) -> Seq<char> {
    "pub mod "@ + lower + "_controller"@ + ";\npub use "@ + lower + "_controller"@ + "::*;\n"@
}

/// The line that declares and re-exports the controller module of `lower`.
pub fn controller_mod_line_content(lower: &str) -> (s: String)
    ensures
        s@ == controller_mod_line(lower@),
{
    let mut s = String::from_str("pub mod ");
    s.append(lower);
    s.append("_controller");
    s.append(";\npub use ");
    s.append(lower);
    s.append("_controller");
    s.append("::*;\n");
    s
}

/// The file name of the controller of `lower`.
pub fn controller_file_name(lower: &str) -> (s: String)
    ensures
        s@ == lower@ + "_controller.rs"@,
{
    String::from_str(lower).concat("_controller.rs")
}

/// The template `make` starts from for a kind of resource.
pub open spec fn template_path(r: ResourceType) -> Seq<char> {
    match r {
        ResourceType::Controller => "templates/controller.rs"@,
        ResourceType::Model => "templates/model.rs"@,
        ResourceType::Migration => "templates/migration.rs"@,
        ResourceType::Seeder => "templates/seeder.rs"@,
        ResourceType::Factory => "templates/factory.rs"@,
        ResourceType::Test => "templates/test.rs"@,
        ResourceType::Command => "templates/command.rs"@,
        ResourceType::Event => "templates/event.rs"@,
        ResourceType::Job => "templates/job.rs"@,
        ResourceType::Mail => "templates/mail.rs"@,
        ResourceType::Notification => "templates/notification.rs"@,
        ResourceType::Policy => "templates/policy.rs"@,
        ResourceType::Provider => "templates/provider.rs"@,
        ResourceType::Request => "templates/request.rs"@,
        ResourceType::Resource => "templates/resource.rs"@,
        ResourceType::Rule => "templates/rule.rs"@,
        ResourceType::Scope => "templates/scope.rs"@,
        ResourceType::Service => "templates/service.rs"@,
        ResourceType::Middleware => "templates/middleware.rs"@,
    }
}

/// The template `make` starts from for a kind of resource.
pub fn template_file(r: ResourceType) -> (s: &'static str)
    ensures
        s@ == template_path(r),
{
    match r {
        ResourceType::Controller => "templates/controller.rs",
        ResourceType::Model => "templates/model.rs",
        ResourceType::Migration => "templates/migration.rs",
        ResourceType::Seeder => "templates/seeder.rs",
        ResourceType::Factory => "templates/factory.rs",
        ResourceType::Test => "templates/test.rs",
        ResourceType::Command => "templates/command.rs",
        ResourceType::Event => "templates/event.rs",
        ResourceType::Job => "templates/job.rs",
        ResourceType::Mail => "templates/mail.rs",
        ResourceType::Notification => "templates/notification.rs",
        ResourceType::Policy => "templates/policy.rs",
        ResourceType::Provider => "templates/provider.rs",
        ResourceType::Request => "templates/request.rs",
        ResourceType::Resource => "templates/resource.rs",
        ResourceType::Rule => "templates/rule.rs",
        ResourceType::Scope => "templates/scope.rs",
        ResourceType::Service => "templates/service.rs",
        ResourceType::Middleware => "templates/middleware.rs",
    }
}

/// The directory a kind of resource goes to, and the suffix of its file name.
pub open spec fn output_parts(r: ResourceType) -> (Seq<char>, Seq<char>) {
    match r {
        ResourceType::Controller => ("src/app/controllers/"@, "_controller.rs"@),
        ResourceType::Model => ("src/app/models/"@, ".rs"@),
        ResourceType::Migration => ("migrations/"@, ".rs"@),
        ResourceType::Seeder => ("src/database/seeders/"@, "_seeder.rs"@),
        ResourceType::Factory => ("src/database/factories/"@, "_factory.rs"@),
        ResourceType::Test => ("tests/"@, "_test.rs"@),
        ResourceType::Command => ("src/app/commands/"@, ".rs"@),
        ResourceType::Event => ("src/app/events/"@, ".rs"@),
        ResourceType::Job => ("src/app/jobs/"@, ".rs"@),
        ResourceType::Mail => ("src/app/mail/"@, ".rs"@),
        ResourceType::Notification => ("src/app/notifications/"@, ".rs"@),
        ResourceType::Policy => ("src/app/policies/"@, ".rs"@),
        ResourceType::Provider => ("src/app/providers/"@, ".rs"@),
        ResourceType::Request => ("src/app/requests/"@, ".rs"@),
        ResourceType::Resource => ("src/app/resources/"@, ".rs"@),
        ResourceType::Rule => ("src/app/rules/"@, ".rs"@),
        ResourceType::Scope => ("src/app/scopes/"@, ".rs"@),
        ResourceType::Service => ("src/app/services/"@, ".rs"@),
        ResourceType::Middleware => ("src/app/middleware/"@, ".rs"@),
    }
}

/// Where `make` writes a resource named `name`: under its kind's directory, named after
/// the lower-case `name`.
pub open spec fn output_path(r: ResourceType, name: Seq<char>) -> Seq<char> {
    output_parts(r).0 + lowercase(name) + output_parts(r).1
}

fn output_dir_and_suffix(r: ResourceType) -> (p: (&'static str, &'static str))
    ensures
        p.0@ == output_parts(r).0,
        p.1@ == output_parts(r).1,
{
    match r {
        ResourceType::Controller => ("src/app/controllers/", "_controller.rs"),
        ResourceType::Model => ("src/app/models/", ".rs"),
        ResourceType::Migration => ("migrations/", ".rs"),
        ResourceType::Seeder => ("src/database/seeders/", "_seeder.rs"),
        ResourceType::Factory => ("src/database/factories/", "_factory.rs"),
        ResourceType::Test => ("tests/", "_test.rs"),
        ResourceType::Command => ("src/app/commands/", ".rs"),
        ResourceType::Event => ("src/app/events/", ".rs"),
        ResourceType::Job => ("src/app/jobs/", ".rs"),
        ResourceType::Mail => ("src/app/mail/", ".rs"),
        ResourceType::Notification => ("src/app/notifications/", ".rs"),
        ResourceType::Policy => ("src/app/policies/", ".rs"),
        ResourceType::Provider => ("src/app/providers/", ".rs"),
        ResourceType::Request => ("src/app/requests/", ".rs"),
        ResourceType::Resource => ("src/app/resources/", ".rs"),
        ResourceType::Rule => ("src/app/rules/", ".rs"),
        ResourceType::Scope => ("src/app/scopes/", ".rs"),
        ResourceType::Service => ("src/app/services/", ".rs"),
        ResourceType::Middleware => ("src/app/middleware/", ".rs"),
    }
}

/// Where `make` writes a resource named `name`.
pub fn output_file(r: ResourceType, name: &str) -> (s: String)
    ensures
        s@ == output_path(r, name@),
{
    let (dir, suffix) = output_dir_and_suffix(r);
    let lower = to_lowercase(name);
    String::from_str(dir).concat(lower.as_str()).concat(suffix)
}

/// A file a generator writes: its name in its directory, its content, and the lines
/// it adds to that directory's `mod.rs`, in order.
pub struct GeneratedFile {
    pub file_name: String,
    pub content: String,
    pub mod_lines: Vec<String>,
}

/// The file of the model named `name`; `make_controller` and `make_dto` look for it.
pub fn model_source(name: &str) -> (s: String)
    ensures
        s@ == "src/app/models/"@ + lowercase(name@) + ".rs"@,
{
    let lower = to_lowercase(name);
    String::from_str("src/app/models/").concat(lower.as_str()).concat(".rs")
}

/// The file of the DTOs named `name`; `make_controller` looks for it.
pub fn dto_source(name: &str) -> (s: String)
    ensures
        s@ == "src/app/dtos/"@ + lowercase(name@) + ".rs"@,
{
    let lower = to_lowercase(name);
    String::from_str("src/app/dtos/").concat(lower.as_str()).concat(".rs")
}

/// The line that declares the module `lower`.
pub open spec fn pub_mod_line(lower: Seq<char>) -> Seq<char> {
    "pub mod "@ + lower + ";\n"@
}

/// What `make_controller` writes for `name` in `src/app/controllers`, given whether a
/// model and DTOs named `name` exist.
pub fn controller_output(name: &str, model_exists: bool, dto_exists: bool) -> (f: GeneratedFile)
    ensures
        f.file_name@ == lowercase(name@) + "_controller.rs"@,
        f.content@ == controller_file(name@, lowercase(name@), model_exists, dto_exists),
        views(f.mod_lines@) == seq![controller_mod_line(lowercase(name@))],
{
    let lower = to_lowercase(name);
    let content = controller_file_content(name, lower.as_str(), model_exists, dto_exists);
    let mut mod_lines: Vec<String> = Vec::new();
    mod_lines.push(controller_mod_line_content(lower.as_str()));
    assert(views(mod_lines@) =~= seq![controller_mod_line(lowercase(name@))]);
    GeneratedFile { file_name: controller_file_name(lower.as_str()), content, mod_lines }
}

/// What `make_dto` writes for `name` in `src/app/dtos`, given whether a model named
/// `name` exists.
pub fn dto_output(name: &str, model_exists: bool) -> (f: GeneratedFile)
    ensures
        f.file_name@ == lowercase(name@) + ".rs"@,
        f.content@ == dto_file(dto_imports(name@, model_exists), name@),
        views(f.mod_lines@) == seq![pub_mod_line(lowercase(name@))],
{
    let lower = to_lowercase(name);
    let mut mod_lines: Vec<String> = Vec::new();
    mod_lines.push(String::from_str("pub mod ").concat(lower.as_str()).concat(";\n"));
    assert(views(mod_lines@) =~= seq![pub_mod_line(lowercase(name@))]);
    GeneratedFile {
        file_name: lower.clone().concat(".rs"),
        content: dto_content(name, model_exists),
        mod_lines,
    }
}

/// What `make_page_dto` writes for the page `name` in `src/app/dtos`: the props type,
/// declared and re-exported.
pub fn page_dto_output(name: &str) -> (f: GeneratedFile)
    ensures
        f.file_name@ == lowercase(name@) + ".rs"@,
        f.content@ == page_dto_file(name@),
        views(f.mod_lines@) == seq![
            pub_mod_line(lowercase(name@)),
            "pub use "@ + lowercase(name@) + "::"@ + name@ + "Props;\n"@,
        ],
{
    let lower = to_lowercase(name);
    let mut mod_lines: Vec<String> = Vec::new();
    mod_lines.push(String::from_str("pub mod ").concat(lower.as_str()).concat(";\n"));
    mod_lines.push(String::from_str("pub use ").concat(lower.as_str()).concat("::").concat(name).concat("Props;\n"));
    assert(views(mod_lines@) =~= seq![
        pub_mod_line(lowercase(name@)),
        "pub use "@ + lowercase(name@) + "::"@ + name@ + "Props;\n"@,
    ]);
    GeneratedFile { file_name: lower.clone().concat(".rs"), content: page_dto_file_content(name), mod_lines }
}

/// What `make_page_controller` writes for the page `name` in `src/app/controllers`:
/// the controller `<name>Controller`, declared and re-exported.
pub fn page_controller_output(name: &str) -> (f: GeneratedFile)
    ensures
        f.file_name@ == lowercase(name@) + "_controller.rs"@,
        f.content@ == page_controller_file(name@, lowercase(name@), name@ + "Controller"@),
        views(f.mod_lines@) == seq![controller_mod_line(lowercase(name@))],
{
    let lower = to_lowercase(name);
    let controller_name = String::from_str(name).concat("Controller");
    let content = page_controller_file_content(name, lower.as_str(), controller_name.as_str());
    let mut mod_lines: Vec<String> = Vec::new();
    mod_lines.push(controller_mod_line_content(lower.as_str()));
    assert(views(mod_lines@) =~= seq![controller_mod_line(lowercase(name@))]);
    GeneratedFile { file_name: controller_file_name(lower.as_str()), content, mod_lines }
}

/// What `make_page_component` writes for the page `name` in `resources/js/pages`:
/// `<name>.tsx`, with no module to declare.
pub fn page_component_output(name: &str) -> (f: GeneratedFile)
    ensures
        f.file_name@ == name@ + ".tsx"@,
        f.content@ == page_component_file(name@),
        f.mod_lines@.len() == 0,
{
    GeneratedFile {
        file_name: String::from_str(name).concat(".tsx"),
        content: page_component_file_content(name),
        mod_lines: Vec::new(),
    }
}

/// A template with `{{name}}` replaced by `name`, then `{{timestamp}}` by the decimal
/// `timestamp`.
pub open spec fn rendered(template: Seq<char>, name: Seq<char>, timestamp: nat) -> Seq<char> {
    replace_all(replace_all(template, "{{name}}"@, name), "{{timestamp}}"@, decimal(timestamp))
}

/// Fills in the placeholders of a template.
pub fn render_template(template: &str, name: &str, timestamp: u64) -> (s: String)
    ensures
        s@ == rendered(template@, name@, timestamp as nat),
{
    proof {
        reveal_strlit("{{name}}");
        reveal_strlit("{{timestamp}}");
    }
    let with_name = replace(template, "{{name}}", name);
    let ts = u64_to_decimal(timestamp);
    replace(with_name.as_str(), "{{timestamp}}", ts.as_str())
}

/// The files and `mod.rs` lines `make_model` produces for a model.
pub struct ModelFiles {
    /// The lower-case model name, which names both files.
    pub file_stem: String,
    pub table_name: String,
    pub entity: String,
    pub model: String,
    pub mod_line: String,
    pub use_line: String,
}

/// What `make_model` writes for `model_name`: files named after the lower-case name,
/// stored in the plural of the lower-case name.
pub fn model_files(model_name: &str) -> (f: ModelFiles)
    ensures
        f.file_stem@ == lowercase(model_name@),
        f.table_name@ == plural(lowercase(model_name@)),
        f.entity@ == entity_file(model_name@),
        f.model@ == model_file(model_name@, plural(lowercase(model_name@))),
        f.mod_line@ == "mod "@ + lowercase(model_name@) + ";"@,
        f.use_line@ == "pub use "@ + lowercase(model_name@) + "::"@ + model_name@ + ";"@,
{
    let lower = to_lowercase(model_name);
    let table_name = to_plural(lower.as_str());
    let entity = entity_file_content(model_name);
    let model = model_file_content(model_name, table_name.as_str());
    let mod_line = String::from_str("mod ").concat(lower.as_str()).concat(";");
    let use_line = String::from_str("pub use ").concat(lower.as_str()).concat("::").concat(model_name).concat(";");
    ModelFiles { file_stem: lower, table_name, entity, model, mod_line, use_line }
}

/// Replacing a pattern that does not occur leaves the text as it is.
pub proof fn replace_absent_is_identity(s: Seq<char>, pat: Seq<char>, rep: Seq<char>)
    requires
        !contains_sub(s, pat),
    ensures
        replace_all(s, pat, rep) == s,
    decreases s.len(),
{
    if pat.len() == 0 || s.len() < pat.len() {
    } else {
        assert(s.subrange(0, 0 + pat.len() as int) != pat);
        let rest = s.skip(1);
        assert(!contains_sub(rest, pat)) by {
            if contains_sub(rest, pat) {
                let i = choose|i: int| 0 <= i && i + pat.len() <= rest.len()
                    && #[trigger] rest.subrange(i, i + pat.len()) == pat;
                assert(s.subrange(i + 1, i + 1 + pat.len()) =~= rest.subrange(i, i + pat.len()));
            }
        }
        replace_absent_is_identity(rest, pat, rep);
        assert(seq![s[0]] + rest =~= s);
    }
}

/// A template with neither placeholder is written out unchanged.
pub proof fn template_without_placeholders_is_unchanged(template: Seq<char>, name: Seq<char>, timestamp: nat)
    requires
        !contains_sub(template, "{{name}}"@),
        !contains_sub(template, "{{timestamp}}"@),
    ensures
        rendered(template, name, timestamp) == template,
{
    replace_absent_is_identity(template, "{{name}}"@, name);
    replace_absent_is_identity(template, "{{timestamp}}"@, decimal(timestamp));
}

/// A line that occurs at the end of a text occurs in it.
proof fn lemma_contains_suffix(content: Seq<char>, line: Seq<char>)
    ensures
        contains_sub(content + line, line),
{
    let s = content + line;
    let i = content.len() as int;
    assert(s.subrange(i, i + line.len()) =~= line);
}

/// Adding a line to a `mod.rs` twice adds it once: a second run of a generator
/// leaves the file as the first run left it.
pub proof fn adding_a_line_twice_adds_it_once(content: Seq<char>, line: Seq<char>)
    ensures
        with_line(with_line(content, line), line) == with_line(content, line),
        with_separated_line(with_separated_line(content, line), line) == with_separated_line(content, line),
{
    lemma_contains_suffix(content, line);
    lemma_contains_suffix(content + "\n"@, line);
    assert(content + "\n"@ + line =~= (content + "\n"@) + line);
    if content.len() == 0 {
        let i = 0int;
        assert(line.subrange(i, i + line.len()) =~= line);
    }
}

/// A generated controller opens with the framework prelude; when the model exists it
/// imports the entity under the name as given, and when the DTOs exist it imports
/// them from the lower-cased module, in that order; the doc line of the controller and
/// its struct follow the imports.
#[verifier::spinoff_prover]
pub proof fn controller_file_imports(name: Seq<char>, lower: Seq<char>, model_exists: bool, dto_exists: bool)
    ensures
        ({
            let prelude = "use crate::framework::prelude::*;"@;
            let model = "\nuse crate::app::entities::"@ + name + ";"@;
            let dtos = "\nuse crate::app::dtos::"@ + lower + "::{Create"@ + name + "Request, "@ + name
                + "Response, "@ + name + "ListResponse};"@;
            let imports = prelude + (if model_exists { model } else { Seq::empty() })
                + (if dto_exists { dtos } else { Seq::empty() });
            (imports + "\n\n/// "@ + name + " Controller handling all "@ + lower + "-related endpoints\npub struct "@)
                .is_prefix_of(controller_file(name, lower, model_exists, dto_exists))
        }),
{
    let prelude = "use crate::framework::prelude::*;"@;
    let model = "\nuse crate::app::entities::"@ + name + ";"@;
    let dtos = "\nuse crate::app::dtos::"@ + lower + "::{Create"@ + name + "Request, "@ + name
        + "Response, "@ + name + "ListResponse};"@;
    let imports = prelude + (if model_exists { model } else { Seq::empty() })
        + (if dto_exists { dtos } else { Seq::empty() });
    let given = controller_imports(name, lower, model_exists, dto_exists);
    assert(given =~= imports);
    let p = imports + "\n\n/// "@ + name + " Controller handling all "@ + lower + "-related endpoints\npub struct "@;
    let cn = controller_type_name(name);
    let head = controller_head(given, name, lower, cn);
    let tail = cn + " {}\n\nimpl "@ + cn + " {"@;
    assert(head =~= p + tail);
    let body = controller_body(name, lower, model_exists, dto_exists);
    let f = controller_file(name, lower, model_exists, dto_exists);
    assert(f == head + "\n"@ + body + "\n}"@);
    assert(f =~= p + (tail + "\n"@ + body + "\n}"@));
    assert(f.subrange(0, p.len() as int) =~= p);
}

} // verus!
