//! The tools the server offers: each one's name, description and input
//! schema, grouped as the server lists them.  Each tool's name, place in
//! the list and description are stated, and of its input schema the names
//! and types of the properties, in order, and the required parameters; the
//! descriptions and item schemas nested inside a property are data.

use vstd::prelude::*;
use crate::json::{JsonValue, JsonNumber};
use crate::registry::{ToolDefinition, ToolMeta};

verus! {

/// The text of a JSON string; the empty text for other values.
pub open spec fn text_of(v: JsonValue) -> Seq<char> {
    match v {
        JsonValue::String(s) => s@,
        _ => Seq::empty(),
    }
}

/// The required parameters of an input schema: its `required` array, or
/// none.
pub open spec fn required_fields(schema: JsonValue) -> Seq<Seq<char>> {
    match schema.field("required"@) {
        Some(JsonValue::Array(a)) => a@.map_values(|v: JsonValue| text_of(v)),
        _ => Seq::empty(),
    }
}

/// The type names a schema's `type` gives: one for a string, each of them
/// for an array of strings.
pub open spec fn type_names(t: JsonValue) -> Seq<Seq<char>> {
    match t {
        JsonValue::String(s) => seq![s@],
        JsonValue::Array(a) => a@.map_values(|v: JsonValue| text_of(v)),
        _ => Seq::empty(),
    }
}

/// The type names of a property's schema.
pub open spec fn property_type(p: JsonValue) -> Seq<Seq<char>> {
    match p.field("type"@) {
        Some(t) => type_names(t),
        None => Seq::empty(),
    }
}

/// The properties of an input schema, in order: each one's name and type
/// names.
pub open spec fn schema_properties(schema: JsonValue) -> Seq<(Seq<char>, Seq<Seq<char>>)> {
    match schema.field("properties"@) {
        Some(JsonValue::Object(m)) => m@.map_values(
            |p: (String, JsonValue)| (p.0@, property_type(p.1)),
        ),
        _ => Seq::empty(),
    }
}

/// The properties of a list of them, as `schema_properties` gives them.
pub open spec fn properties_of(m: Seq<(String, JsonValue)>) -> Seq<(Seq<char>, Seq<Seq<char>>)> {
    m.map_values(|p: (String, JsonValue)| (p.0@, property_type(p.1)))
}

fn text(x: &str) -> (r: JsonValue)
    ensures
        r matches JsonValue::String(s) && s@ == x@,
{
    JsonValue::String(String::from_str(x))
}

fn num(n: u64) -> (r: JsonValue)
    ensures
        r == JsonValue::Number(JsonNumber::Unsigned(n)),
{
    JsonValue::Number(JsonNumber::Unsigned(n))
}

/// An array of strings.
fn texts(xs: Vec<&str>) -> (r: JsonValue)
    ensures
        r matches JsonValue::Array(a) && a@.map_values(|v: JsonValue| text_of(v)) == xs@.map_values(
            |x: &str| x@,
        ),
{
    let mut out: Vec<JsonValue> = Vec::new();
    let mut i: usize = 0;
    while i < xs.len()
        invariant
            i <= xs@.len(),
            out@.map_values(|v: JsonValue| text_of(v)) == xs@.take(i as int).map_values(|x: &str| x@),
        decreases xs@.len() - i,
    {
        let ghost before = out@;
        out.push(text(xs[i]));
        assert(xs@.take(i + 1) =~= xs@.take(i as int).push(xs@[i as int]));
        assert(out@.map_values(|v: JsonValue| text_of(v)) =~= before.map_values(|v: JsonValue| text_of(v)).push(
            xs@[i as int]@,
        ));
        assert(xs@.take(i + 1).map_values(|x: &str| x@) =~= xs@.take(i as int).map_values(|x: &str| x@).push(
            xs@[i as int]@,
        ));
        i = i + 1;
    }
    assert(xs@.take(i as int) =~= xs@);
    JsonValue::Array(out)
}

/// An object with the given members, in order.
fn obj(members: Vec<(&str, JsonValue)>) -> (r: JsonValue)
    ensures
        r matches JsonValue::Object(m) && m@.len() == members@.len(),
{
    let mut rest = members;
    let ghost n = rest@.len();
    let mut out: Vec<(String, JsonValue)> = Vec::new();
    while rest.len() > 0
        invariant
            out@.len() + rest@.len() == n,
        decreases rest@.len(),
    {
        let (k, v) = rest.remove(0);
        out.push((String::from_str(k), v));
    }
    JsonValue::Object(out)
}

/// A property of an input schema: its name, and its own schema, which
/// gives the type first and then the other members.
fn prop(name: &str, ty: JsonValue, rest: Vec<(&str, JsonValue)>) -> (r: (String, JsonValue))
    ensures
        r.0@ == name@,
        property_type(r.1) == type_names(ty),
{
    let ghost t = ty;
    let mut members: Vec<(String, JsonValue)> = Vec::new();
    members.push((String::from_str("type"), ty));
    let mut rest = rest;
    while rest.len() > 0
        invariant
            members@.len() >= 1,
            members@[0].0@ == "type"@,
            members@[0].1 == t,
        decreases rest@.len(),
    {
        let (k, v) = rest.remove(0);
        members.push((String::from_str(k), v));
    }
    (String::from_str(name), JsonValue::Object(members))
}

/// An input schema: an object with the given properties, and the required
/// ones where there are any.
fn object_schema(properties: Vec<(String, JsonValue)>, required: Option<Vec<&str>>) -> (r: JsonValue)
    ensures
        required_fields(r) == match required {
            Some(v) => v@.map_values(|x: &str| x@),
            None => Seq::<Seq<char>>::empty(),
        },
        schema_properties(r) == properties_of(properties@),
{
    let ghost pv = properties@;
    proof {
        reveal_strlit("type");
        reveal_strlit("properties");
        reveal_strlit("required");
        reveal_with_fuel(crate::json::lookup_member, 4);
    }
    let mut members: Vec<(String, JsonValue)> = Vec::new();
    members.push((String::from_str("type"), text("object")));
    members.push((String::from_str("properties"), JsonValue::Object(properties)));
    assert("type"@.len() == 4 && "properties"@.len() == 10);
    assert(members@[0].0@ != "properties"@);
    assert(members@[1].0@ == "properties"@);
    assert(members@.drop_first()[0] == members@[1]);
    match required {
        Some(v) => {
            let a = texts(v);
            members.push((String::from_str("required"), a));
            let ghost m = members@;
            assert("type"@.len() == 4 && "properties"@.len() == 10 && "required"@.len() == 8);
            assert(m[0].0@ != "required"@);
            assert(m[1].0@ != "required"@);
            assert(m[2].0@ == "required"@);
            assert(m.drop_first().drop_first()[0] == m[2]);
        },
        None => {
            let ghost m = members@;
            assert("type"@.len() == 4 && "properties"@.len() == 10 && "required"@.len() == 8);
            assert(m[0].0@ != "required"@);
            assert(m[1].0@ != "required"@);
            assert(m.drop_first().drop_first().len() == 0);
        },
    }
    JsonValue::Object(members)
}

fn tool(name: &str, description: &str, input_schema: JsonValue) -> (r: ToolMeta)
    ensures
        r.definition.name@ == name@,
        r.definition.description@ == description@,
        r.definition.input_schema == input_schema,
        r.agent_allowed,
{
    ToolMeta::allowed(
        ToolDefinition {
            name: String::from_str(name),
            description: String::from_str(description),
            input_schema,
        },
    )
}

/// The definition of `post_to_bluesky`.
fn post_to_bluesky_definition() -> (r: ToolMeta)
    ensures
        r.definition.name@ == "post_to_bluesky"@,
        required_fields(r.definition.input_schema) == seq!["text"@],
        r.definition.description@ == "Post a new message to Bluesky, optionally with images"@,
        schema_properties(r.definition.input_schema) == seq![
            ("text"@, seq!["string"@]),
            ("images"@, seq!["array"@]),
            ("facets"@, seq!["array"@]),
        ],
        r.agent_allowed,
{
    let schema = object_schema(
        vec![
            prop("text", text("string"), vec![
                ("description", text("The text content of the post (max 300 graphemes)")),
            ]),
            prop("images", text("array"), vec![
                ("description", text("Images to attach (max 4). Provide either a workspace file path or base64 data for each image.")),
                ("items", obj(vec![
                    ("type", text("object")),
                    ("properties", obj(vec![
                        ("path", obj(vec![
                            ("type", text("string")),
                            ("description", text("File path relative to the workspace (e.g., 'output/chart.png'). MIME type is inferred from extension.")),
                        ])),
                        ("data", obj(vec![
                            ("type", text("string")),
                            ("description", text("Base64-encoded image data (alternative to path)")),
                        ])),
                        ("alt", obj(vec![
                            ("type", text("string")),
                            ("description", text("Alt text description (required for accessibility)")),
                        ])),
                        ("mime_type", obj(vec![
                            ("type", text("string")),
                            ("description", text("MIME type (auto-detected from path extension, or default image/jpeg for base64). Supported: image/jpeg, image/png, image/webp, image/gif")),
                        ])),
                    ])),
                    ("required", texts(vec!["alt"])),
                ])),
            ]),
            prop("facets", text("array"), vec![
                ("description", text("Rich text facets for mentions, links, and hashtags. If provided, auto-detection is skipped.")),
                ("items", obj(vec![
                    ("type", text("object")),
                    ("properties", obj(vec![
                        ("byte_start", obj(vec![
                            ("type", text("integer")),
                            ("description", text("Start byte index in the text")),
                        ])),
                        ("byte_end", obj(vec![
                            ("type", text("integer")),
                            ("description", text("End byte index in the text")),
                        ])),
                        ("mention_did", obj(vec![
                            ("type", text("string")),
                            ("description", text("DID for mention facet (e.g., did:plc:xxx)")),
                        ])),
                        ("link_uri", obj(vec![
                            ("type", text("string")),
                            ("description", text("URI for link facet")),
                        ])),
                        ("tag", obj(vec![
                            ("type", text("string")),
                            ("description", text("Hashtag (without #)")),
                        ])),
                    ])),
                    ("required", texts(vec!["byte_start", "byte_end"])),
                ])),
            ]),
        ],
        Some(vec!["text"]),
    );
    assert(required_fields(schema) =~= seq!["text"@]);
    assert(schema_properties(schema) =~~= seq![
            ("text"@, seq!["string"@]),
            ("images"@, seq!["array"@]),
            ("facets"@, seq!["array"@]),
        ]);
    tool("post_to_bluesky", "Post a new message to Bluesky, optionally with images", schema)
}

/// The definition of `reply_to_bluesky`.
fn reply_to_bluesky_definition() -> (r: ToolMeta)
    ensures
        r.definition.name@ == "reply_to_bluesky"@,
        required_fields(r.definition.input_schema) == seq!["text"@, "parent_uri"@, "parent_cid"@, "root_uri"@, "root_cid"@],
        r.definition.description@ == "Reply to an existing Bluesky post, optionally with images"@,
        schema_properties(r.definition.input_schema) == seq![
            ("text"@, seq!["string"@]),
            ("parent_uri"@, seq!["string"@]),
            ("parent_cid"@, seq!["string"@]),
            ("root_uri"@, seq!["string"@]),
            ("root_cid"@, seq!["string"@]),
            ("images"@, seq!["array"@]),
            ("facets"@, seq!["array"@]),
        ],
        r.agent_allowed,
{
    let schema = object_schema(
        vec![
            prop("text", text("string"), vec![
                ("description", text("The text content of the reply (max 300 graphemes)")),
            ]),
            prop("parent_uri", text("string"), vec![
                ("description", text("AT URI of the post to reply to")),
            ]),
            prop("parent_cid", text("string"), vec![
                ("description", text("CID of the post to reply to")),
            ]),
            prop("root_uri", text("string"), vec![
                ("description", text("AT URI of the thread root (same as parent for direct replies)")),
            ]),
            prop("root_cid", text("string"), vec![
                ("description", text("CID of the thread root")),
            ]),
            prop("images", text("array"), vec![
                ("description", text("Images to attach (max 4). Provide either a workspace file path or base64 data for each image.")),
                ("items", obj(vec![
                    ("type", text("object")),
                    ("properties", obj(vec![
                        ("path", obj(vec![
                            ("type", text("string")),
                            ("description", text("File path relative to the workspace (e.g., 'output/chart.png'). MIME type is inferred from extension.")),
                        ])),
                        ("data", obj(vec![
                            ("type", text("string")),
                            ("description", text("Base64-encoded image data (alternative to path)")),
                        ])),
                        ("alt", obj(vec![
                            ("type", text("string")),
                            ("description", text("Alt text description (required for accessibility)")),
                        ])),
                        ("mime_type", obj(vec![
                            ("type", text("string")),
                            ("description", text("MIME type (auto-detected from path extension, or default image/jpeg for base64). Supported: image/jpeg, image/png, image/webp, image/gif")),
                        ])),
                    ])),
                    ("required", texts(vec!["alt"])),
                ])),
            ]),
            prop("facets", text("array"), vec![
                ("description", text("Rich text facets for mentions, links, and hashtags. If provided, auto-detection is skipped.")),
                ("items", obj(vec![
                    ("type", text("object")),
                    ("properties", obj(vec![
                        ("byte_start", obj(vec![
                            ("type", text("integer")),
                            ("description", text("Start byte index in the text")),
                        ])),
                        ("byte_end", obj(vec![
                            ("type", text("integer")),
                            ("description", text("End byte index in the text")),
                        ])),
                        ("mention_did", obj(vec![
                            ("type", text("string")),
                            ("description", text("DID for mention facet (e.g., did:plc:xxx)")),
                        ])),
                        ("link_uri", obj(vec![
                            ("type", text("string")),
                            ("description", text("URI for link facet")),
                        ])),
                        ("tag", obj(vec![
                            ("type", text("string")),
                            ("description", text("Hashtag (without #)")),
                        ])),
                    ])),
                    ("required", texts(vec!["byte_start", "byte_end"])),
                ])),
            ]),
        ],
        Some(vec!["text", "parent_uri", "parent_cid", "root_uri", "root_cid"]),
    );
    assert(required_fields(schema) =~= seq!["text"@, "parent_uri"@, "parent_cid"@, "root_uri"@, "root_cid"@]);
    assert(schema_properties(schema) =~~= seq![
            ("text"@, seq!["string"@]),
            ("parent_uri"@, seq!["string"@]),
            ("parent_cid"@, seq!["string"@]),
            ("root_uri"@, seq!["string"@]),
            ("root_cid"@, seq!["string"@]),
            ("images"@, seq!["array"@]),
            ("facets"@, seq!["array"@]),
        ]);
    tool("reply_to_bluesky", "Reply to an existing Bluesky post, optionally with images", schema)
}

/// The definition of `send_bluesky_dm`.
fn send_bluesky_dm_definition() -> (r: ToolMeta)
    ensures
        r.definition.name@ == "send_bluesky_dm"@,
        required_fields(r.definition.input_schema) == seq!["recipient_did"@, "text"@],
        r.definition.description@ == "Send a direct message to a Bluesky user (creates conversation if needed)"@,
        schema_properties(r.definition.input_schema) == seq![
            ("recipient_did"@, seq!["string"@]),
            ("text"@, seq!["string"@]),
            ("facets"@, seq!["array"@]),
        ],
        r.agent_allowed,
{
    let schema = object_schema(
        vec![
            prop("recipient_did", text("string"), vec![
                ("description", text("DID of the recipient (e.g., did:plc:xxx)")),
            ]),
            prop("text", text("string"), vec![
                ("description", text("The message text")),
            ]),
            prop("facets", text("array"), vec![
                ("description", text("Rich text facets for mentions, links, and hashtags. If provided, auto-detection is skipped.")),
                ("items", obj(vec![
                    ("type", text("object")),
                    ("properties", obj(vec![
                        ("byte_start", obj(vec![
                            ("type", text("integer")),
                            ("description", text("Start byte index in the text")),
                        ])),
                        ("byte_end", obj(vec![
                            ("type", text("integer")),
                            ("description", text("End byte index in the text")),
                        ])),
                        ("mention_did", obj(vec![
                            ("type", text("string")),
                            ("description", text("DID for mention facet (e.g., did:plc:xxx)")),
                        ])),
                        ("link_uri", obj(vec![
                            ("type", text("string")),
                            ("description", text("URI for link facet")),
                        ])),
                        ("tag", obj(vec![
                            ("type", text("string")),
                            ("description", text("Hashtag (without #)")),
                        ])),
                    ])),
                    ("required", texts(vec!["byte_start", "byte_end"])),
                ])),
            ]),
        ],
        Some(vec!["recipient_did", "text"]),
    );
    assert(required_fields(schema) =~= seq!["recipient_did"@, "text"@]);
    assert(schema_properties(schema) =~~= seq![
            ("recipient_did"@, seq!["string"@]),
            ("text"@, seq!["string"@]),
            ("facets"@, seq!["array"@]),
        ]);
    tool("send_bluesky_dm", "Send a direct message to a Bluesky user (creates conversation if needed)", schema)
}

/// The definition of `reply_to_dm`.
fn reply_to_dm_definition() -> (r: ToolMeta)
    ensures
        r.definition.name@ == "reply_to_dm"@,
        required_fields(r.definition.input_schema) == seq!["convo_id"@, "text"@],
        r.definition.description@ == "Reply to an existing DM conversation. Use this when you have a convo_id from a received DM."@,
        schema_properties(r.definition.input_schema) == seq![
            ("convo_id"@, seq!["string"@]),
            ("text"@, seq!["string"@]),
            ("facets"@, seq!["array"@]),
        ],
        r.agent_allowed,
{
    let schema = object_schema(
        vec![
            prop("convo_id", text("string"), vec![
                ("description", text("The conversation ID to reply to")),
            ]),
            prop("text", text("string"), vec![
                ("description", text("The message text")),
            ]),
            prop("facets", text("array"), vec![
                ("description", text("Rich text facets for mentions, links, and hashtags. If provided, auto-detection is skipped.")),
                ("items", obj(vec![
                    ("type", text("object")),
                    ("properties", obj(vec![
                        ("byte_start", obj(vec![
                            ("type", text("integer")),
                            ("description", text("Start byte index in the text")),
                        ])),
                        ("byte_end", obj(vec![
                            ("type", text("integer")),
                            ("description", text("End byte index in the text")),
                        ])),
                        ("mention_did", obj(vec![
                            ("type", text("string")),
                            ("description", text("DID for mention facet (e.g., did:plc:xxx)")),
                        ])),
                        ("link_uri", obj(vec![
                            ("type", text("string")),
                            ("description", text("URI for link facet")),
                        ])),
                        ("tag", obj(vec![
                            ("type", text("string")),
                            ("description", text("Hashtag (without #)")),
                        ])),
                    ])),
                    ("required", texts(vec!["byte_start", "byte_end"])),
                ])),
            ]),
        ],
        Some(vec!["convo_id", "text"]),
    );
    assert(required_fields(schema) =~= seq!["convo_id"@, "text"@]);
    assert(schema_properties(schema) =~~= seq![
            ("convo_id"@, seq!["string"@]),
            ("text"@, seq!["string"@]),
            ("facets"@, seq!["array"@]),
        ]);
    tool("reply_to_dm", "Reply to an existing DM conversation. Use this when you have a convo_id from a received DM.", schema)
}

/// The definition of `like_post`.
fn like_post_definition() -> (r: ToolMeta)
    ensures
        r.definition.name@ == "like_post"@,
        required_fields(r.definition.input_schema) == seq!["uri"@, "cid"@],
        r.definition.description@ == "Like a Bluesky post"@,
        schema_properties(r.definition.input_schema) == seq![
            ("uri"@, seq!["string"@]),
            ("cid"@, seq!["string"@]),
        ],
        r.agent_allowed,
{
    let schema = object_schema(
        vec![
            prop("uri", text("string"), vec![
                ("description", text("AT URI of the post to like")),
            ]),
            prop("cid", text("string"), vec![
                ("description", text("CID of the post to like")),
            ]),
        ],
        Some(vec!["uri", "cid"]),
    );
    assert(required_fields(schema) =~= seq!["uri"@, "cid"@]);
    assert(schema_properties(schema) =~~= seq![
            ("uri"@, seq!["string"@]),
            ("cid"@, seq!["string"@]),
        ]);
    tool("like_post", "Like a Bluesky post", schema)
}

/// The definition of `follow_user`.
fn follow_user_definition() -> (r: ToolMeta)
    ensures
        r.definition.name@ == "follow_user"@,
        required_fields(r.definition.input_schema) == seq!["did"@],
        r.definition.description@ == "Follow a Bluesky user"@,
        schema_properties(r.definition.input_schema) == seq![
            ("did"@, seq!["string"@]),
        ],
        r.agent_allowed,
{
    let schema = object_schema(
        vec![
            prop("did", text("string"), vec![
                ("description", text("DID of the user to follow")),
            ]),
        ],
        Some(vec!["did"]),
    );
    assert(required_fields(schema) =~= seq!["did"@]);
    assert(schema_properties(schema) =~~= seq![
            ("did"@, seq!["string"@]),
        ]);
    tool("follow_user", "Follow a Bluesky user", schema)
}

/// The definition of `get_timeline`.
fn get_timeline_definition() -> (r: ToolMeta)
    ensures
        r.definition.name@ == "get_timeline"@,
        required_fields(r.definition.input_schema) == Seq::<Seq<char>>::empty(),
        r.definition.description@ == "Get your Bluesky home timeline"@,
        schema_properties(r.definition.input_schema) == seq![
            ("limit"@, seq!["integer"@]),
        ],
        r.agent_allowed,
{
    let schema = object_schema(
        vec![
            prop("limit", text("integer"), vec![
                ("description", text("Maximum number of posts to return (default 20, max 100)")),
            ]),
        ],
        None,
    );
    assert(required_fields(schema) =~= Seq::<Seq<char>>::empty());
    assert(schema_properties(schema) =~~= seq![
            ("limit"@, seq!["integer"@]),
        ]);
    tool("get_timeline", "Get your Bluesky home timeline", schema)
}

/// The definition of `get_notifications`.
fn get_notifications_definition() -> (r: ToolMeta)
    ensures
        r.definition.name@ == "get_notifications"@,
        required_fields(r.definition.input_schema) == Seq::<Seq<char>>::empty(),
        r.definition.description@ == "Get recent Bluesky notifications"@,
        schema_properties(r.definition.input_schema) == seq![
            ("limit"@, seq!["integer"@]),
        ],
        r.agent_allowed,
{
    let schema = object_schema(
        vec![
            prop("limit", text("integer"), vec![
                ("description", text("Maximum number of notifications to return (default 20, max 100)")),
            ]),
        ],
        None,
    );
    assert(required_fields(schema) =~= Seq::<Seq<char>>::empty());
    assert(schema_properties(schema) =~~= seq![
            ("limit"@, seq!["integer"@]),
        ]);
    tool("get_notifications", "Get recent Bluesky notifications", schema)
}

/// The definition of `search_posts`.
fn search_posts_definition() -> (r: ToolMeta)
    ensures
        r.definition.name@ == "search_posts"@,
        required_fields(r.definition.input_schema) == seq!["query"@],
        r.definition.description@ == "Search for posts across Bluesky by keyword, hashtag, author, or date range. Use this to discover conversations about topics you care about. Note: finding a conversation doesn't mean you're welcome in it—consider developing your own heuristics (via identity/rules) for when engagement is appropriate."@,
        schema_properties(r.definition.input_schema) == seq![
            ("query"@, seq!["string"@]),
            ("author"@, seq!["string"@]),
            ("since"@, seq!["string"@]),
            ("until"@, seq!["string"@]),
            ("lang"@, seq!["string"@]),
            ("tag"@, seq!["array"@]),
            ("sort"@, seq!["string"@]),
            ("limit"@, seq!["integer"@]),
            ("cursor"@, seq!["string"@]),
        ],
        r.agent_allowed,
{
    let schema = object_schema(
        vec![
            prop("query", text("string"), vec![
                ("description", text("Search query (Lucene syntax supported)")),
            ]),
            prop("author", text("string"), vec![
                ("description", text("Filter by author handle or DID (optional)")),
            ]),
            prop("since", text("string"), vec![
                ("description", text("Filter after datetime ISO 8601 (optional)")),
            ]),
            prop("until", text("string"), vec![
                ("description", text("Filter before datetime ISO 8601 (optional)")),
            ]),
            prop("lang", text("string"), vec![
                ("description", text("Filter by language code (optional)")),
            ]),
            prop("tag", text("array"), vec![
                ("items", obj(vec![
                    ("type", text("string")),
                ])),
                ("description", text("Filter by hashtags (optional)")),
            ]),
            prop("sort", text("string"), vec![
                ("enum", texts(vec!["top", "latest"])),
                ("description", text("Sort order: 'top' or 'latest' (default: latest)")),
            ]),
            prop("limit", text("integer"), vec![
                ("description", text("Maximum results 1-100 (default 25)")),
            ]),
            prop("cursor", text("string"), vec![
                ("description", text("Pagination cursor (optional)")),
            ]),
        ],
        Some(vec!["query"]),
    );
    assert(required_fields(schema) =~= seq!["query"@]);
    assert(schema_properties(schema) =~~= seq![
            ("query"@, seq!["string"@]),
            ("author"@, seq!["string"@]),
            ("since"@, seq!["string"@]),
            ("until"@, seq!["string"@]),
            ("lang"@, seq!["string"@]),
            ("tag"@, seq!["array"@]),
            ("sort"@, seq!["string"@]),
            ("limit"@, seq!["integer"@]),
            ("cursor"@, seq!["string"@]),
        ]);
    tool("search_posts", "Search for posts across Bluesky by keyword, hashtag, author, or date range. Use this to discover conversations about topics you care about. Note: finding a conversation doesn't mean you're welcome in it—consider developing your own heuristics (via identity/rules) for when engagement is appropriate.", schema)
}

/// The definition of `search_users`.
fn search_users_definition() -> (r: ToolMeta)
    ensures
        r.definition.name@ == "search_users"@,
        required_fields(r.definition.input_schema) == seq!["query"@],
        r.definition.description@ == "Search for Bluesky users by name, handle, or bio. Use this to discover people working on topics you find interesting. Consider whether to follow, engage, or simply observe."@,
        schema_properties(r.definition.input_schema) == seq![
            ("query"@, seq!["string"@]),
            ("limit"@, seq!["integer"@]),
            ("cursor"@, seq!["string"@]),
        ],
        r.agent_allowed,
{
    let schema = object_schema(
        vec![
            prop("query", text("string"), vec![
                ("description", text("Search query (name, handle, bio)")),
            ]),
            prop("limit", text("integer"), vec![
                ("description", text("Maximum results 1-100 (default 25)")),
            ]),
            prop("cursor", text("string"), vec![
                ("description", text("Pagination cursor (optional)")),
            ]),
        ],
        Some(vec!["query"]),
    );
    assert(required_fields(schema) =~= seq!["query"@]);
    assert(schema_properties(schema) =~~= seq![
            ("query"@, seq!["string"@]),
            ("limit"@, seq!["integer"@]),
            ("cursor"@, seq!["string"@]),
        ]);
    tool("search_users", "Search for Bluesky users by name, handle, or bio. Use this to discover people working on topics you find interesting. Consider whether to follow, engage, or simply observe.", schema)
}

/// The definition of `get_thread_context`.
fn get_thread_context_definition() -> (r: ToolMeta)
    ensures
        r.definition.name@ == "get_thread_context"@,
        required_fields(r.definition.input_schema) == seq!["uri"@],
        r.definition.description@ == "Get the full context of a Bluesky thread. Returns all posts in the thread tree, list of participants, and your participation metrics (reply count, last reply time, posts since your last reply). Use this before replying to a thread to understand the full conversation."@,
        schema_properties(r.definition.input_schema) == seq![
            ("uri"@, seq!["string"@]),
            ("depth"@, seq!["integer"@]),
        ],
        r.agent_allowed,
{
    let schema = object_schema(
        vec![
            prop("uri", text("string"), vec![
                ("description", text("AT URI of any post in the thread (typically the root or the post you're responding to)")),
            ]),
            prop("depth", text("integer"), vec![
                ("description", text("Maximum reply depth to fetch (default 6, max 1000)")),
            ]),
        ],
        Some(vec!["uri"]),
    );
    assert(required_fields(schema) =~= seq!["uri"@]);
    assert(schema_properties(schema) =~~= seq![
            ("uri"@, seq!["string"@]),
            ("depth"@, seq!["integer"@]),
        ]);
    tool("get_thread_context", "Get the full context of a Bluesky thread. Returns all posts in the thread tree, list of participants, and your participation metrics (reply count, last reply time, posts since your last reply). Use this before replying to a thread to understand the full conversation.", schema)
}

/// The definition of `mute_user`.
fn mute_user_definition() -> (r: ToolMeta)
    ensures
        r.definition.name@ == "mute_user"@,
        required_fields(r.definition.input_schema) == seq!["did"@],
        r.definition.description@ == "Mute a Bluesky user. Muted users won't appear in your timeline or notifications, but they can still see your posts and interact with you."@,
        schema_properties(r.definition.input_schema) == seq![
            ("did"@, seq!["string"@]),
        ],
        r.agent_allowed,
{
    let schema = object_schema(
        vec![
            prop("did", text("string"), vec![
                ("description", text("DID of the user to mute (e.g., did:plc:xxx)")),
            ]),
        ],
        Some(vec!["did"]),
    );
    assert(required_fields(schema) =~= seq!["did"@]);
    assert(schema_properties(schema) =~~= seq![
            ("did"@, seq!["string"@]),
        ]);
    tool("mute_user", "Mute a Bluesky user. Muted users won't appear in your timeline or notifications, but they can still see your posts and interact with you.", schema)
}

/// The definition of `unmute_user`.
fn unmute_user_definition() -> (r: ToolMeta)
    ensures
        r.definition.name@ == "unmute_user"@,
        required_fields(r.definition.input_schema) == seq!["did"@],
        r.definition.description@ == "Unmute a previously muted Bluesky user."@,
        schema_properties(r.definition.input_schema) == seq![
            ("did"@, seq!["string"@]),
        ],
        r.agent_allowed,
{
    let schema = object_schema(
        vec![
            prop("did", text("string"), vec![
                ("description", text("DID of the user to unmute (e.g., did:plc:xxx)")),
            ]),
        ],
        Some(vec!["did"]),
    );
    assert(required_fields(schema) =~= seq!["did"@]);
    assert(schema_properties(schema) =~~= seq![
            ("did"@, seq!["string"@]),
        ]);
    tool("unmute_user", "Unmute a previously muted Bluesky user.", schema)
}

/// The definition of `block_user`.
fn block_user_definition() -> (r: ToolMeta)
    ensures
        r.definition.name@ == "block_user"@,
        required_fields(r.definition.input_schema) == seq!["did"@],
        r.definition.description@ == "Block a Bluesky user. Blocked users cannot see your posts, mention you, or interact with you in any way. This is a stronger action than muting."@,
        schema_properties(r.definition.input_schema) == seq![
            ("did"@, seq!["string"@]),
        ],
        r.agent_allowed,
{
    let schema = object_schema(
        vec![
            prop("did", text("string"), vec![
                ("description", text("DID of the user to block (e.g., did:plc:xxx)")),
            ]),
        ],
        Some(vec!["did"]),
    );
    assert(required_fields(schema) =~= seq!["did"@]);
    assert(schema_properties(schema) =~~= seq![
            ("did"@, seq!["string"@]),
        ]);
    tool("block_user", "Block a Bluesky user. Blocked users cannot see your posts, mention you, or interact with you in any way. This is a stronger action than muting.", schema)
}

/// The definition of `unblock_user`.
fn unblock_user_definition() -> (r: ToolMeta)
    ensures
        r.definition.name@ == "unblock_user"@,
        required_fields(r.definition.input_schema) == seq!["block_uri"@],
        r.definition.description@ == "Unblock a previously blocked Bluesky user."@,
        schema_properties(r.definition.input_schema) == seq![
            ("block_uri"@, seq!["string"@]),
        ],
        r.agent_allowed,
{
    let schema = object_schema(
        vec![
            prop("block_uri", text("string"), vec![
                ("description", text("AT URI of the block record (returned when blocking)")),
            ]),
        ],
        Some(vec!["block_uri"]),
    );
    assert(required_fields(schema) =~= seq!["block_uri"@]);
    assert(schema_properties(schema) =~~= seq![
            ("block_uri"@, seq!["string"@]),
        ]);
    tool("unblock_user", "Unblock a previously blocked Bluesky user.", schema)
}

/// The definition of `mute_thread`.
fn mute_thread_definition() -> (r: ToolMeta)
    ensures
        r.definition.name@ == "mute_thread"@,
        required_fields(r.definition.input_schema) == seq!["root_uri"@],
        r.definition.description@ == "Mute a Bluesky thread. Muted threads won't generate notifications for new replies."@,
        schema_properties(r.definition.input_schema) == seq![
            ("root_uri"@, seq!["string"@]),
        ],
        r.agent_allowed,
{
    let schema = object_schema(
        vec![
            prop("root_uri", text("string"), vec![
                ("description", text("AT URI of the thread root post")),
            ]),
        ],
        Some(vec!["root_uri"]),
    );
    assert(required_fields(schema) =~= seq!["root_uri"@]);
    assert(schema_properties(schema) =~~= seq![
            ("root_uri"@, seq!["string"@]),
        ]);
    tool("mute_thread", "Mute a Bluesky thread. Muted threads won't generate notifications for new replies.", schema)
}

/// The definition of `unmute_thread`.
fn unmute_thread_definition() -> (r: ToolMeta)
    ensures
        r.definition.name@ == "unmute_thread"@,
        required_fields(r.definition.input_schema) == seq!["root_uri"@],
        r.definition.description@ == "Unmute a previously muted Bluesky thread."@,
        schema_properties(r.definition.input_schema) == seq![
            ("root_uri"@, seq!["string"@]),
        ],
        r.agent_allowed,
{
    let schema = object_schema(
        vec![
            prop("root_uri", text("string"), vec![
                ("description", text("AT URI of the thread root post")),
            ]),
        ],
        Some(vec!["root_uri"]),
    );
    assert(required_fields(schema) =~= seq!["root_uri"@]);
    assert(schema_properties(schema) =~~= seq![
            ("root_uri"@, seq!["string"@]),
        ]);
    tool("unmute_thread", "Unmute a previously muted Bluesky thread.", schema)
}

/// The definition of `delete_post`.
fn delete_post_definition() -> (r: ToolMeta)
    ensures
        r.definition.name@ == "delete_post"@,
        required_fields(r.definition.input_schema) == seq!["post_uri"@],
        r.definition.description@ == "Delete a Bluesky post or reply. This action is irreversible."@,
        schema_properties(r.definition.input_schema) == seq![
            ("post_uri"@, seq!["string"@]),
        ],
        r.agent_allowed,
{
    let schema = object_schema(
        vec![
            prop("post_uri", text("string"), vec![
                ("description", text("AT URI of the post to delete (e.g., at://did:plc:xxx/app.bsky.feed.post/rkey)")),
            ]),
        ],
        Some(vec!["post_uri"]),
    );
    assert(required_fields(schema) =~= seq!["post_uri"@]);
    assert(schema_properties(schema) =~~= seq![
            ("post_uri"@, seq!["string"@]),
        ]);
    tool("delete_post", "Delete a Bluesky post or reply. This action is irreversible.", schema)
}

/// The definition of `create_fact`.
fn create_fact_definition() -> (r: ToolMeta)
    ensures
        r.definition.name@ == "create_fact"@,
        required_fields(r.definition.input_schema) == seq!["predicate"@, "args"@],
        r.definition.description@ == "Create a new fact. Facts are atomic, structured knowledge with a predicate and arguments. Use DIDs for account references, never handles."@,
        schema_properties(r.definition.input_schema) == seq![
            ("predicate"@, seq!["string"@]),
            ("args"@, seq!["array"@]),
            ("confidence"@, seq!["number"@]),
            ("tags"@, seq!["array"@]),
            ("expires_at"@, seq!["string"@]),
            ("ttl_seconds"@, seq!["integer"@]),
        ],
        r.agent_allowed,
{
    let schema = object_schema(
        vec![
            prop("predicate", text("string"), vec![
                ("description", text("The predicate name (e.g., 'follows', 'interested_in', 'mentioned')")),
            ]),
            prop("args", text("array"), vec![
                ("items", obj(vec![
                    ("type", text("string")),
                ])),
                ("description", text("Arguments to the predicate (e.g., ['did:plc:abc', 'did:plc:xyz'] for follows)")),
            ]),
            prop("confidence", text("number"), vec![
                ("description", text("Confidence level 0.0-1.0 (default 1.0)")),
            ]),
            prop("tags", text("array"), vec![
                ("items", obj(vec![
                    ("type", text("string")),
                ])),
                ("description", text("Optional tags for categorization")),
            ]),
            prop("expires_at", text("string"), vec![
                ("description", text("Optional ISO 8601 expiration timestamp. Facts past this time are excluded from default queries.")),
            ]),
            prop("ttl_seconds", text("integer"), vec![
                ("description", text("Optional time-to-live in seconds (convenience alternative to expires_at). Computed to expires_at at creation time.")),
            ]),
        ],
        Some(vec!["predicate", "args"]),
    );
    assert(required_fields(schema) =~= seq!["predicate"@, "args"@]);
    assert(schema_properties(schema) =~~= seq![
            ("predicate"@, seq!["string"@]),
            ("args"@, seq!["array"@]),
            ("confidence"@, seq!["number"@]),
            ("tags"@, seq!["array"@]),
            ("expires_at"@, seq!["string"@]),
            ("ttl_seconds"@, seq!["integer"@]),
        ]);
    tool("create_fact", "Create a new fact. Facts are atomic, structured knowledge with a predicate and arguments. Use DIDs for account references, never handles.", schema)
}

/// The definition of `create_facts`.
fn create_facts_definition() -> (r: ToolMeta)
    ensures
        r.definition.name@ == "create_facts"@,
        required_fields(r.definition.input_schema) == seq!["facts"@],
        r.definition.description@ == "Create multiple facts in a single atomic transaction. All facts are created together or none are. Use DIDs for account references, never handles."@,
        schema_properties(r.definition.input_schema) == seq![
            ("facts"@, seq!["array"@]),
        ],
        r.agent_allowed,
{
    let schema = object_schema(
        vec![
            prop("facts", text("array"), vec![
                ("items", obj(vec![
                    ("type", text("object")),
                    ("properties", obj(vec![
                        ("predicate", obj(vec![
                            ("type", text("string")),
                            ("description", text("The predicate name")),
                        ])),
                        ("args", obj(vec![
                            ("type", text("array")),
                            ("items", obj(vec![
                                ("type", text("string")),
                            ])),
                            ("description", text("Arguments to the predicate")),
                        ])),
                        ("confidence", obj(vec![
                            ("type", text("number")),
                            ("description", text("Confidence level 0.0-1.0 (default 1.0)")),
                        ])),
                        ("tags", obj(vec![
                            ("type", text("array")),
                            ("items", obj(vec![
                                ("type", text("string")),
                            ])),
                            ("description", text("Optional tags for categorization")),
                        ])),
                        ("expires_at", obj(vec![
                            ("type", text("string")),
                            ("description", text("Optional ISO 8601 expiration timestamp")),
                        ])),
                        ("ttl_seconds", obj(vec![
                            ("type", text("integer")),
                            ("description", text("Optional time-to-live in seconds")),
                        ])),
                    ])),
                    ("required", texts(vec!["predicate", "args"])),
                ])),
                ("description", text("Array of facts to create")),
            ]),
        ],
        Some(vec!["facts"]),
    );
    assert(required_fields(schema) =~= seq!["facts"@]);
    assert(schema_properties(schema) =~~= seq![
            ("facts"@, seq!["array"@]),
        ]);
    tool("create_facts", "Create multiple facts in a single atomic transaction. All facts are created together or none are. Use DIDs for account references, never handles.", schema)
}

/// The definition of `update_fact`.
fn update_fact_definition() -> (r: ToolMeta)
    ensures
        r.definition.name@ == "update_fact"@,
        required_fields(r.definition.input_schema) == seq!["rkey"@, "predicate"@, "args"@],
        r.definition.description@ == "Update an existing fact by creating a new one that supersedes it. The old fact is preserved for historical queries via _all_{predicate} and _supersedes relations."@,
        schema_properties(r.definition.input_schema) == seq![
            ("rkey"@, seq!["string"@]),
            ("predicate"@, seq!["string"@]),
            ("args"@, seq!["array"@]),
            ("confidence"@, seq!["number"@]),
            ("tags"@, seq!["array"@]),
            ("expires_at"@, seq!["string"@]),
            ("ttl_seconds"@, seq!["integer"@]),
        ],
        r.agent_allowed,
{
    let schema = object_schema(
        vec![
            prop("rkey", text("string"), vec![
                ("description", text("Record key of the fact to update")),
            ]),
            prop("predicate", text("string"), vec![
                ("description", text("The predicate name")),
            ]),
            prop("args", text("array"), vec![
                ("items", obj(vec![
                    ("type", text("string")),
                ])),
                ("description", text("Arguments to the predicate")),
            ]),
            prop("confidence", text("number"), vec![
                ("description", text("Confidence level 0.0-1.0")),
            ]),
            prop("tags", text("array"), vec![
                ("items", obj(vec![
                    ("type", text("string")),
                ])),
                ("description", text("Optional tags")),
            ]),
            prop("expires_at", text("string"), vec![
                ("description", text("Optional ISO 8601 expiration timestamp for the new fact")),
            ]),
            prop("ttl_seconds", text("integer"), vec![
                ("description", text("Optional time-to-live in seconds for the new fact")),
            ]),
        ],
        Some(vec!["rkey", "predicate", "args"]),
    );
    assert(required_fields(schema) =~= seq!["rkey"@, "predicate"@, "args"@]);
    assert(schema_properties(schema) =~~= seq![
            ("rkey"@, seq!["string"@]),
            ("predicate"@, seq!["string"@]),
            ("args"@, seq!["array"@]),
            ("confidence"@, seq!["number"@]),
            ("tags"@, seq!["array"@]),
            ("expires_at"@, seq!["string"@]),
            ("ttl_seconds"@, seq!["integer"@]),
        ]);
    tool("update_fact", "Update an existing fact by creating a new one that supersedes it. The old fact is preserved for historical queries via _all_{predicate} and _supersedes relations.", schema)
}

/// The definition of `delete_fact`.
fn delete_fact_definition() -> (r: ToolMeta)
    ensures
        r.definition.name@ == "delete_fact"@,
        required_fields(r.definition.input_schema) == seq!["rkey"@],
        r.definition.description@ == "Delete a fact by its record key."@,
        schema_properties(r.definition.input_schema) == seq![
            ("rkey"@, seq!["string"@]),
        ],
        r.agent_allowed,
{
    let schema = object_schema(
        vec![
            prop("rkey", text("string"), vec![
                ("description", text("Record key of the fact to delete")),
            ]),
        ],
        Some(vec!["rkey"]),
    );
    assert(required_fields(schema) =~= seq!["rkey"@]);
    assert(schema_properties(schema) =~~= seq![
            ("rkey"@, seq!["string"@]),
        ]);
    tool("delete_fact", "Delete a fact by its record key.", schema)
}

/// The definition of `query_facts`.
fn query_facts_definition() -> (r: ToolMeta)
    ensures
        r.definition.name@ == "query_facts"@,
        required_fields(r.definition.input_schema) == seq!["query"@],
        r.definition.description@ == "Query facts using datalog. By default, queries return only current facts (superseded facts are excluded).\n\n## Available Relations\n\n**User predicates** (current facts, with rkey at end):\n- `follows(A, B, Rkey)`, `interested_in(A, B, Rkey)`, etc.\n\n**Historical predicates** (all facts with rkey at end):\n- `_all_follows(A, B, Rkey)` - includes superseded facts\n\n**Metadata relations**:\n- `_fact(Rkey, Predicate, Cid)` - base relation for all facts\n- `_confidence(Rkey, Value)` - only facts with confidence ≠ 1.0\n- `_source(Rkey, SourceCid)` - only facts with source set\n- `_supersedes(NewRkey, OldRkey)` - supersession chain\n- `_created_at(Rkey, Timestamp)` - when each fact was created (ISO8601)\n- `_expires_at(Rkey, Timestamp)` - only facts with expiration set (ISO8601)\n- `_now(Timestamp)` - current time, auto-injected at query time\n- `_expired(Rkey)` - derived: facts past their expiration (computed via `_expires_at` + `_now`)\n\n## Example Queries\n\n- Current follows: `follows(X, Y, _)` or `follows(X, Y, R)` to get rkey\n- All historical follows: `_all_follows(X, Y, Rkey)`\n- Find what a fact superseded: `_supersedes(NewRkey, OldRkey)`\n- Low-confidence facts: `_all_follows(X, Y, R), _confidence(R, C), C < 0.8`\n- Facts with sources: `_fact(Rkey, _, _), _source(Rkey, Src)`\n\n**Temporal queries**:\n- Facts after a date: `_all_follows(X, Y, R), _created_at(R, T), T > \"2026-01-15T00:00:00Z\"`\n- Recent facts: `_fact(R, P, _), _created_at(R, T), T > \"2026-01-01T00:00:00Z\"`\n\n**Ephemeral facts** (extra_facts parameter):\nInject runtime context without persisting to the PDS. Useful for thread state, time-based reasoning, etc.\nExample: `extra_facts: [\"thread_depth(\\\"at://...\\\", \\\"7\\\")\", \"my_reply_count(\\\"at://...\\\", \\\"4\\\")\"]`\n\n**Ad-hoc declarations** (extra_declarations parameter):\nDeclare predicates at query time for predicates not yet stored.\nExample: `extra_declarations: [\"my_pred(arg1: symbol, arg2: symbol)\"]`"@,
        schema_properties(r.definition.input_schema) == seq![
            ("query"@, seq!["string"@]),
            ("extra_rules"@, seq!["string"@]),
            ("extra_facts"@, seq!["array"@]),
            ("extra_declarations"@, seq!["array"@]),
        ],
        r.agent_allowed,
{
    let schema = object_schema(
        vec![
            prop("query", text("string"), vec![
                ("description", text("The query predicate to evaluate (e.g., 'follows(X, Y, _)' for current facts, '_all_follows(X, Y, Rkey)' for historical)")),
            ]),
            prop("extra_rules", text("string"), vec![
                ("description", text("Optional ad-hoc rules to include in the query (Soufflé syntax)")),
            ]),
            prop("extra_facts", text("array"), vec![
                ("items", obj(vec![
                    ("type", text("string")),
                ])),
                ("description", text("Optional ephemeral facts to inject at query time (e.g., [\"thread_depth(\\\"uri\\\", \\\"5\\\")\"]). Not persisted.")),
            ]),
            prop("extra_declarations", text("array"), vec![
                ("items", obj(vec![
                    ("type", text("string")),
                ])),
                ("description", text("Optional ad-hoc predicate declarations (e.g., [\"my_pred(arg1: symbol, arg2: symbol)\"]). For predicates not yet stored.")),
            ]),
        ],
        Some(vec!["query"]),
    );
    assert(required_fields(schema) =~= seq!["query"@]);
    assert(schema_properties(schema) =~~= seq![
            ("query"@, seq!["string"@]),
            ("extra_rules"@, seq!["string"@]),
            ("extra_facts"@, seq!["array"@]),
            ("extra_declarations"@, seq!["array"@]),
        ]);
    tool("query_facts", "Query facts using datalog. By default, queries return only current facts (superseded facts are excluded).\n\n## Available Relations\n\n**User predicates** (current facts, with rkey at end):\n- `follows(A, B, Rkey)`, `interested_in(A, B, Rkey)`, etc.\n\n**Historical predicates** (all facts with rkey at end):\n- `_all_follows(A, B, Rkey)` - includes superseded facts\n\n**Metadata relations**:\n- `_fact(Rkey, Predicate, Cid)` - base relation for all facts\n- `_confidence(Rkey, Value)` - only facts with confidence ≠ 1.0\n- `_source(Rkey, SourceCid)` - only facts with source set\n- `_supersedes(NewRkey, OldRkey)` - supersession chain\n- `_created_at(Rkey, Timestamp)` - when each fact was created (ISO8601)\n- `_expires_at(Rkey, Timestamp)` - only facts with expiration set (ISO8601)\n- `_now(Timestamp)` - current time, auto-injected at query time\n- `_expired(Rkey)` - derived: facts past their expiration (computed via `_expires_at` + `_now`)\n\n## Example Queries\n\n- Current follows: `follows(X, Y, _)` or `follows(X, Y, R)` to get rkey\n- All historical follows: `_all_follows(X, Y, Rkey)`\n- Find what a fact superseded: `_supersedes(NewRkey, OldRkey)`\n- Low-confidence facts: `_all_follows(X, Y, R), _confidence(R, C), C < 0.8`\n- Facts with sources: `_fact(Rkey, _, _), _source(Rkey, Src)`\n\n**Temporal queries**:\n- Facts after a date: `_all_follows(X, Y, R), _created_at(R, T), T > \"2026-01-15T00:00:00Z\"`\n- Recent facts: `_fact(R, P, _), _created_at(R, T), T > \"2026-01-01T00:00:00Z\"`\n\n**Ephemeral facts** (extra_facts parameter):\nInject runtime context without persisting to the PDS. Useful for thread state, time-based reasoning, etc.\nExample: `extra_facts: [\"thread_depth(\\\"at://...\\\", \\\"7\\\")\", \"my_reply_count(\\\"at://...\\\", \\\"4\\\")\"]`\n\n**Ad-hoc declarations** (extra_declarations parameter):\nDeclare predicates at query time for predicates not yet stored.\nExample: `extra_declarations: [\"my_pred(arg1: symbol, arg2: symbol)\"]`", schema)
}

/// The definition of `list_predicates`.
fn list_predicates_definition() -> (r: ToolMeta)
    ensures
        r.definition.name@ == "list_predicates"@,
        required_fields(r.definition.input_schema) == Seq::<Seq<char>>::empty(),
        r.definition.description@ == "List all available predicates with their arities.\n\nShows three categories:\n- **User predicates**: From your facts in the PDS (e.g., `thread_completed(arg0, arg1, arg2)`)\n- **Derived predicates**: Auto-generated from records (e.g., `follows`, `has_note`)\n- **Metadata predicates**: System predicates for querying fact metadata\n\nFor each predicate, shows:\n- Name and arity\n- The `_all_` variant (includes rkey for historical queries)\n- Example usage pattern"@,
        schema_properties(r.definition.input_schema) == seq![
            ("search"@, seq!["string"@]),
        ],
        r.agent_allowed,
{
    let schema = object_schema(
        vec![
            prop("search", text("string"), vec![
                ("description", text("Filter predicate names (case-insensitive substring)")),
            ]),
        ],
        None,
    );
    assert(required_fields(schema) =~= Seq::<Seq<char>>::empty());
    assert(schema_properties(schema) =~~= seq![
            ("search"@, seq!["string"@]),
        ]);
    tool("list_predicates", "List all available predicates with their arities.\n\nShows three categories:\n- **User predicates**: From your facts in the PDS (e.g., `thread_completed(arg0, arg1, arg2)`)\n- **Derived predicates**: Auto-generated from records (e.g., `follows`, `has_note`)\n- **Metadata predicates**: System predicates for querying fact metadata\n\nFor each predicate, shows:\n- Name and arity\n- The `_all_` variant (includes rkey for historical queries)\n- Example usage pattern", schema)
}

/// The definition of `list_validation_errors`.
fn list_validation_errors_definition() -> (r: ToolMeta)
    ensures
        r.definition.name@ == "list_validation_errors"@,
        required_fields(r.definition.input_schema) == Seq::<Seq<char>>::empty(),
        r.definition.description@ == "List facts that don't conform to their declared schema. Returns rkey, predicate, and error message for each invalid fact."@,
        schema_properties(r.definition.input_schema) == Seq::<(Seq<char>, Seq<Seq<char>>)>::empty(),
        r.agent_allowed,
{
    let schema = object_schema(
        vec![],
        None,
    );
    assert(required_fields(schema) =~= Seq::<Seq<char>>::empty());
    assert(schema_properties(schema) =~~= Seq::<(Seq<char>, Seq<Seq<char>>)>::empty());
    tool("list_validation_errors", "List facts that don't conform to their declared schema. Returns rkey, predicate, and error message for each invalid fact.", schema)
}

/// The definition of `query_and_enrich`.
fn query_and_enrich_definition() -> (r: ToolMeta)
    ensures
        r.definition.name@ == "query_and_enrich"@,
        required_fields(r.definition.input_schema) == seq!["query"@, "enrichments"@],
        r.definition.description@ == "Query facts using datalog, then enrich results with Bluesky API data.\n\nThis tool chains a datalog query with API enrichment calls, deduplicating lookups\nfor efficiency. Each enrichment specifies which result column to use as its input key.\n\n## Enrichment Types\n\n| Type | Input | Description |\n|------|-------|-------------|\n| profile | DID | Get user profile (handle, bio, counts) |\n| author_feed | DID | Get user's recent posts |\n| search_posts | query string | Search for posts matching the query |\n| thread_context | post URI | Get full thread with participation metrics |\n| followers | DID | Get accounts following the user |\n| follows | DID | Get accounts the user follows |\n\n## Failure Handling\n\nGlobal `on_failure` sets the default; each enrichment can override:\n- `continue` (default): Include error in result, keep processing\n- `skip_tuple`: Omit tuple from results if enrichment fails\n- `halt`: Stop immediately, return partial results with error\n\n## Example\n\n```json\n{\n  \"query\": \"engage_candidate(Person, Topic, _)\",\n  \"enrichments\": [\n    {\"column\": 0, \"type\": \"profile\"},\n    {\"column\": 0, \"type\": \"author_feed\", \"options\": {\"limit\": 5}},\n    {\"column\": 1, \"type\": \"search_posts\", \"options\": {\"limit\": 3}}\n  ],\n  \"max_parallel\": 5\n}\n```\n\nReturns query results with enrichment data attached, deduped by unique keys."@,
        schema_properties(r.definition.input_schema) == seq![
            ("query"@, seq!["string"@]),
            ("extra_rules"@, seq!["string"@]),
            ("extra_facts"@, seq!["array"@]),
            ("enrichments"@, seq!["array"@]),
            ("max_parallel"@, seq!["integer"@]),
            ("on_failure"@, seq!["string"@]),
        ],
        r.agent_allowed,
{
    let schema = object_schema(
        vec![
            prop("query", text("string"), vec![
                ("description", text("Datalog query to execute (same as query_facts)")),
            ]),
            prop("extra_rules", text("string"), vec![
                ("description", text("Optional ad-hoc rules for the query")),
            ]),
            prop("extra_facts", text("array"), vec![
                ("items", obj(vec![
                    ("type", text("string")),
                ])),
                ("description", text("Optional ephemeral facts to inject")),
            ]),
            prop("enrichments", text("array"), vec![
                ("items", obj(vec![
                    ("type", text("object")),
                    ("properties", obj(vec![
                        ("column", obj(vec![
                            ("type", text("integer")),
                            ("description", text("Which column (0-indexed) to use as the enrichment key")),
                        ])),
                        ("type", obj(vec![
                            ("type", text("string")),
                            ("enum", texts(vec!["profile", "author_feed", "search_posts", "thread_context", "followers", "follows"])),
                            ("description", text("Type of enrichment")),
                        ])),
                        ("options", obj(vec![
                            ("type", text("object")),
                            ("properties", obj(vec![
                                ("limit", obj(vec![
                                    ("type", text("integer")),
                                    ("description", text("Limit for list results (1-100)")),
                                ])),
                                ("since", obj(vec![
                                    ("type", text("string")),
                                    ("description", text("Since timestamp for search_posts")),
                                ])),
                                ("depth", obj(vec![
                                    ("type", text("integer")),
                                    ("description", text("Depth for thread_context")),
                                ])),
                            ])),
                        ])),
                        ("on_failure", obj(vec![
                            ("type", text("string")),
                            ("enum", texts(vec!["continue", "skip_tuple", "halt"])),
                            ("description", text("How to handle failures (overrides global)")),
                        ])),
                        ("max_retries", obj(vec![
                            ("type", text("integer")),
                            ("description", text("Retries before applying on_failure (default: 0)")),
                        ])),
                    ])),
                    ("required", texts(vec!["column", "type"])),
                ])),
                ("description", text("Enrichments to apply to query results")),
            ]),
            prop("max_parallel", text("integer"), vec![
                ("description", text("Maximum concurrent API calls (default: 5)")),
            ]),
            prop("on_failure", text("string"), vec![
                ("enum", texts(vec!["continue", "skip_tuple", "halt"])),
                ("description", text("Default failure handling for enrichments")),
            ]),
        ],
        Some(vec!["query", "enrichments"]),
    );
    assert(required_fields(schema) =~= seq!["query"@, "enrichments"@]);
    assert(schema_properties(schema) =~~= seq![
            ("query"@, seq!["string"@]),
            ("extra_rules"@, seq!["string"@]),
            ("extra_facts"@, seq!["array"@]),
            ("enrichments"@, seq!["array"@]),
            ("max_parallel"@, seq!["integer"@]),
            ("on_failure"@, seq!["string"@]),
        ]);
    tool("query_and_enrich", "Query facts using datalog, then enrich results with Bluesky API data.\n\nThis tool chains a datalog query with API enrichment calls, deduplicating lookups\nfor efficiency. Each enrichment specifies which result column to use as its input key.\n\n## Enrichment Types\n\n| Type | Input | Description |\n|------|-------|-------------|\n| profile | DID | Get user profile (handle, bio, counts) |\n| author_feed | DID | Get user's recent posts |\n| search_posts | query string | Search for posts matching the query |\n| thread_context | post URI | Get full thread with participation metrics |\n| followers | DID | Get accounts following the user |\n| follows | DID | Get accounts the user follows |\n\n## Failure Handling\n\nGlobal `on_failure` sets the default; each enrichment can override:\n- `continue` (default): Include error in result, keep processing\n- `skip_tuple`: Omit tuple from results if enrichment fails\n- `halt`: Stop immediately, return partial results with error\n\n## Example\n\n```json\n{\n  \"query\": \"engage_candidate(Person, Topic, _)\",\n  \"enrichments\": [\n    {\"column\": 0, \"type\": \"profile\"},\n    {\"column\": 0, \"type\": \"author_feed\", \"options\": {\"limit\": 5}},\n    {\"column\": 1, \"type\": \"search_posts\", \"options\": {\"limit\": 3}}\n  ],\n  \"max_parallel\": 5\n}\n```\n\nReturns query results with enrichment data attached, deduped by unique keys.", schema)
}

/// The definition of `create_note`.
fn create_note_definition() -> (r: ToolMeta)
    ensures
        r.definition.name@ == "create_note"@,
        required_fields(r.definition.input_schema) == seq!["title"@, "content"@],
        r.definition.description@ == "Create a new note. Notes are free-form markdown for investigations, summaries, and reflections."@,
        schema_properties(r.definition.input_schema) == seq![
            ("title"@, seq!["string"@]),
            ("content"@, seq!["string"@]),
            ("category"@, seq!["string"@]),
            ("tags"@, seq!["array"@]),
        ],
        r.agent_allowed,
{
    let schema = object_schema(
        vec![
            prop("title", text("string"), vec![
                ("description", text("Title of the note")),
            ]),
            prop("content", text("string"), vec![
                ("description", text("Markdown content (max 50KB)")),
            ]),
            prop("category", text("string"), vec![
                ("description", text("Optional category for organization")),
            ]),
            prop("tags", text("array"), vec![
                ("items", obj(vec![
                    ("type", text("string")),
                ])),
                ("description", text("Optional tags for categorization")),
            ]),
        ],
        Some(vec!["title", "content"]),
    );
    assert(required_fields(schema) =~= seq!["title"@, "content"@]);
    assert(schema_properties(schema) =~~= seq![
            ("title"@, seq!["string"@]),
            ("content"@, seq!["string"@]),
            ("category"@, seq!["string"@]),
            ("tags"@, seq!["array"@]),
        ]);
    tool("create_note", "Create a new note. Notes are free-form markdown for investigations, summaries, and reflections.", schema)
}

/// The definition of `get_note`.
fn get_note_definition() -> (r: ToolMeta)
    ensures
        r.definition.name@ == "get_note"@,
        required_fields(r.definition.input_schema) == seq!["rkey"@],
        r.definition.description@ == "Get a note by its record key."@,
        schema_properties(r.definition.input_schema) == seq![
            ("rkey"@, seq!["string"@]),
        ],
        r.agent_allowed,
{
    let schema = object_schema(
        vec![
            prop("rkey", text("string"), vec![
                ("description", text("Record key of the note")),
            ]),
        ],
        Some(vec!["rkey"]),
    );
    assert(required_fields(schema) =~= seq!["rkey"@]);
    assert(schema_properties(schema) =~~= seq![
            ("rkey"@, seq!["string"@]),
        ]);
    tool("get_note", "Get a note by its record key.", schema)
}

/// The definition of `list_notes`.
fn list_notes_definition() -> (r: ToolMeta)
    ensures
        r.definition.name@ == "list_notes"@,
        required_fields(r.definition.input_schema) == Seq::<Seq<char>>::empty(),
        r.definition.description@ == "List all notes, optionally filtered by category or tags."@,
        schema_properties(r.definition.input_schema) == seq![
            ("category"@, seq!["string"@]),
            ("tag"@, seq!["string"@]),
            ("search"@, seq!["string"@]),
            ("limit"@, seq!["integer"@]),
        ],
        r.agent_allowed,
{
    let schema = object_schema(
        vec![
            prop("category", text("string"), vec![
                ("description", text("Filter by category")),
            ]),
            prop("tag", text("string"), vec![
                ("description", text("Filter by tag")),
            ]),
            prop("search", text("string"), vec![
                ("description", text("Filter by title or content (case-insensitive substring)")),
            ]),
            prop("limit", text("integer"), vec![
                ("description", text("Maximum number of notes to return (default 20)")),
            ]),
        ],
        None,
    );
    assert(required_fields(schema) =~= Seq::<Seq<char>>::empty());
    assert(schema_properties(schema) =~~= seq![
            ("category"@, seq!["string"@]),
            ("tag"@, seq!["string"@]),
            ("search"@, seq!["string"@]),
            ("limit"@, seq!["integer"@]),
        ]);
    tool("list_notes", "List all notes, optionally filtered by category or tags.", schema)
}

/// The definition of `schedule_job`.
fn schedule_job_definition() -> (r: ToolMeta)
    ensures
        r.definition.name@ == "schedule_job"@,
        required_fields(r.definition.input_schema) == seq!["name"@, "instructions"@, "run_at"@],
        r.definition.description@ == "Schedule a one-time job to run at a specific time."@,
        schema_properties(r.definition.input_schema) == seq![
            ("name"@, seq!["string"@]),
            ("instructions"@, seq!["string"@]),
            ("run_at"@, seq!["string"@]),
        ],
        r.agent_allowed,
{
    let schema = object_schema(
        vec![
            prop("name", text("string"), vec![
                ("description", text("Name for the job")),
            ]),
            prop("instructions", text("string"), vec![
                ("description", text("Instructions for what to do when the job runs")),
            ]),
            prop("run_at", text("string"), vec![
                ("description", text("ISO 8601 timestamp for when to run (e.g., '2026-01-30T14:00:00Z')")),
            ]),
        ],
        Some(vec!["name", "instructions", "run_at"]),
    );
    assert(required_fields(schema) =~= seq!["name"@, "instructions"@, "run_at"@]);
    assert(schema_properties(schema) =~~= seq![
            ("name"@, seq!["string"@]),
            ("instructions"@, seq!["string"@]),
            ("run_at"@, seq!["string"@]),
        ]);
    tool("schedule_job", "Schedule a one-time job to run at a specific time.", schema)
}

/// The definition of `schedule_recurring`.
fn schedule_recurring_definition() -> (r: ToolMeta)
    ensures
        r.definition.name@ == "schedule_recurring"@,
        required_fields(r.definition.input_schema) == seq!["name"@, "instructions"@, "interval_seconds"@],
        r.definition.description@ == "Schedule a recurring job that runs at regular intervals."@,
        schema_properties(r.definition.input_schema) == seq![
            ("name"@, seq!["string"@]),
            ("instructions"@, seq!["string"@]),
            ("interval_seconds"@, seq!["integer"@]),
        ],
        r.agent_allowed,
{
    let schema = object_schema(
        vec![
            prop("name", text("string"), vec![
                ("description", text("Name for the job")),
            ]),
            prop("instructions", text("string"), vec![
                ("description", text("Instructions for what to do when the job runs")),
            ]),
            prop("interval_seconds", text("integer"), vec![
                ("description", text("How often to run (in seconds)")),
            ]),
        ],
        Some(vec!["name", "instructions", "interval_seconds"]),
    );
    assert(required_fields(schema) =~= seq!["name"@, "instructions"@, "interval_seconds"@]);
    assert(schema_properties(schema) =~~= seq![
            ("name"@, seq!["string"@]),
            ("instructions"@, seq!["string"@]),
            ("interval_seconds"@, seq!["integer"@]),
        ]);
    tool("schedule_recurring", "Schedule a recurring job that runs at regular intervals.", schema)
}

/// The definition of `list_jobs`.
fn list_jobs_definition() -> (r: ToolMeta)
    ensures
        r.definition.name@ == "list_jobs"@,
        required_fields(r.definition.input_schema) == Seq::<Seq<char>>::empty(),
        r.definition.description@ == "List all scheduled jobs."@,
        schema_properties(r.definition.input_schema) == seq![
            ("status"@, seq!["string"@]),
            ("name"@, seq!["string"@]),
            ("limit"@, seq!["integer"@]),
        ],
        r.agent_allowed,
{
    let schema = object_schema(
        vec![
            prop("status", text("string"), vec![
                ("description", text("Filter by status (pending, running, completed, failed)")),
            ]),
            prop("name", text("string"), vec![
                ("description", text("Filter by job name (case-insensitive substring)")),
            ]),
            prop("limit", text("integer"), vec![
                ("description", text("Maximum number of jobs to return")),
            ]),
        ],
        None,
    );
    assert(required_fields(schema) =~= Seq::<Seq<char>>::empty());
    assert(schema_properties(schema) =~~= seq![
            ("status"@, seq!["string"@]),
            ("name"@, seq!["string"@]),
            ("limit"@, seq!["integer"@]),
        ]);
    tool("list_jobs", "List all scheduled jobs.", schema)
}

/// The definition of `cancel_job`.
fn cancel_job_definition() -> (r: ToolMeta)
    ensures
        r.definition.name@ == "cancel_job"@,
        required_fields(r.definition.input_schema) == seq!["rkey"@],
        r.definition.description@ == "Cancel a scheduled job."@,
        schema_properties(r.definition.input_schema) == seq![
            ("rkey"@, seq!["string"@]),
        ],
        r.agent_allowed,
{
    let schema = object_schema(
        vec![
            prop("rkey", text("string"), vec![
                ("description", text("Record key of the job to cancel")),
            ]),
        ],
        Some(vec!["rkey"]),
    );
    assert(required_fields(schema) =~= seq!["rkey"@]);
    assert(schema_properties(schema) =~~= seq![
            ("rkey"@, seq!["string"@]),
        ]);
    tool("cancel_job", "Cancel a scheduled job.", schema)
}

/// The definition of `get_job`.
fn get_job_definition() -> (r: ToolMeta)
    ensures
        r.definition.name@ == "get_job"@,
        required_fields(r.definition.input_schema) == seq!["rkey"@],
        r.definition.description@ == "Get a job by its record key, including full instructions."@,
        schema_properties(r.definition.input_schema) == seq![
            ("rkey"@, seq!["string"@]),
        ],
        r.agent_allowed,
{
    let schema = object_schema(
        vec![
            prop("rkey", text("string"), vec![
                ("description", text("Record key of the job")),
            ]),
        ],
        Some(vec!["rkey"]),
    );
    assert(required_fields(schema) =~= seq!["rkey"@]);
    assert(schema_properties(schema) =~~= seq![
            ("rkey"@, seq!["string"@]),
        ]);
    tool("get_job", "Get a job by its record key, including full instructions.", schema)
}

/// The definition of `get_identity`.
fn get_identity_definition() -> (r: ToolMeta)
    ensures
        r.definition.name@ == "get_identity"@,
        required_fields(r.definition.input_schema) == Seq::<Seq<char>>::empty(),
        r.definition.description@ == "Get your identity configuration (operator_did, timestamps). For values, interests, and self-description, use list_directives instead."@,
        schema_properties(r.definition.input_schema) == Seq::<(Seq<char>, Seq<Seq<char>>)>::empty(),
        r.agent_allowed,
{
    let schema = object_schema(
        vec![],
        None,
    );
    assert(required_fields(schema) =~= Seq::<Seq<char>>::empty());
    assert(schema_properties(schema) =~~= Seq::<(Seq<char>, Seq<Seq<char>>)>::empty());
    tool("get_identity", "Get your identity configuration (operator_did, timestamps). For values, interests, and self-description, use list_directives instead.", schema)
}

/// The definition of `publish_blog_post`.
fn publish_blog_post_definition() -> (r: ToolMeta)
    ensures
        r.definition.name@ == "publish_blog_post"@,
        required_fields(r.definition.input_schema) == seq!["title"@, "content"@],
        r.definition.description@ == "Publish a blog post. Posts are stored as ATProto records and visible at greengale.app."@,
        schema_properties(r.definition.input_schema) == seq![
            ("title"@, seq!["string"@]),
            ("content"@, seq!["string"@]),
            ("draft"@, seq!["boolean"@]),
            ("theme"@, seq!["string"@]),
            ("description"@, seq!["string"@]),
        ],
        r.agent_allowed,
{
    let schema = object_schema(
        vec![
            prop("title", text("string"), vec![
                ("description", text("Title of the blog post")),
            ]),
            prop("content", text("string"), vec![
                ("description", text("Markdown content of the post")),
            ]),
            prop("draft", text("boolean"), vec![
                ("description", text("If true, post is saved as draft (not publicly visible). Default: false")),
            ]),
            prop("theme", text("string"), vec![
                ("description", text("Optional theme for rendering (e.g., 'github-light', 'github-dark')")),
            ]),
            prop("description", text("string"), vec![
                ("description", text("Optional description for social media previews (OGP)")),
            ]),
        ],
        Some(vec!["title", "content"]),
    );
    assert(required_fields(schema) =~= seq!["title"@, "content"@]);
    assert(schema_properties(schema) =~~= seq![
            ("title"@, seq!["string"@]),
            ("content"@, seq!["string"@]),
            ("draft"@, seq!["boolean"@]),
            ("theme"@, seq!["string"@]),
            ("description"@, seq!["string"@]),
        ]);
    tool("publish_blog_post", "Publish a blog post. Posts are stored as ATProto records and visible at greengale.app.", schema)
}

/// The definition of `update_blog_post`.
fn update_blog_post_definition() -> (r: ToolMeta)
    ensures
        r.definition.name@ == "update_blog_post"@,
        required_fields(r.definition.input_schema) == seq!["rkey"@],
        r.definition.description@ == "Update an existing blog post. Only provided fields are changed; others are preserved."@,
        schema_properties(r.definition.input_schema) == seq![
            ("rkey"@, seq!["string"@]),
            ("title"@, seq!["string"@]),
            ("content"@, seq!["string"@]),
            ("draft"@, seq!["boolean"@]),
            ("theme"@, seq!["string"@]),
            ("description"@, seq!["string"@]),
        ],
        r.agent_allowed,
{
    let schema = object_schema(
        vec![
            prop("rkey", text("string"), vec![
                ("description", text("Record key of the blog post to update")),
            ]),
            prop("title", text("string"), vec![
                ("description", text("New title (optional)")),
            ]),
            prop("content", text("string"), vec![
                ("description", text("New markdown content (optional)")),
            ]),
            prop("draft", text("boolean"), vec![
                ("description", text("Set draft status (optional)")),
            ]),
            prop("theme", text("string"), vec![
                ("description", text("Set theme (optional)")),
            ]),
            prop("description", text("string"), vec![
                ("description", text("Set OGP description (optional)")),
            ]),
        ],
        Some(vec!["rkey"]),
    );
    assert(required_fields(schema) =~= seq!["rkey"@]);
    assert(schema_properties(schema) =~~= seq![
            ("rkey"@, seq!["string"@]),
            ("title"@, seq!["string"@]),
            ("content"@, seq!["string"@]),
            ("draft"@, seq!["boolean"@]),
            ("theme"@, seq!["string"@]),
            ("description"@, seq!["string"@]),
        ]);
    tool("update_blog_post", "Update an existing blog post. Only provided fields are changed; others are preserved.", schema)
}

/// The definition of `list_blog_posts`.
fn list_blog_posts_definition() -> (r: ToolMeta)
    ensures
        r.definition.name@ == "list_blog_posts"@,
        required_fields(r.definition.input_schema) == Seq::<Seq<char>>::empty(),
        r.definition.description@ == "List all blog posts. Returns rkey, title, draft status, and created_at for each post."@,
        schema_properties(r.definition.input_schema) == seq![
            ("draft"@, seq!["boolean"@]),
            ("search"@, seq!["string"@]),
            ("limit"@, seq!["integer"@]),
        ],
        r.agent_allowed,
{
    let schema = object_schema(
        vec![
            prop("draft", text("boolean"), vec![
                ("description", text("Filter by draft status (true = drafts only, false = published only)")),
            ]),
            prop("search", text("string"), vec![
                ("description", text("Filter by title (case-insensitive substring)")),
            ]),
            prop("limit", text("integer"), vec![
                ("description", text("Maximum number of posts to return")),
            ]),
        ],
        None,
    );
    assert(required_fields(schema) =~= Seq::<Seq<char>>::empty());
    assert(schema_properties(schema) =~~= seq![
            ("draft"@, seq!["boolean"@]),
            ("search"@, seq!["string"@]),
            ("limit"@, seq!["integer"@]),
        ]);
    tool("list_blog_posts", "List all blog posts. Returns rkey, title, draft status, and created_at for each post.", schema)
}

/// The definition of `get_blog_post`.
fn get_blog_post_definition() -> (r: ToolMeta)
    ensures
        r.definition.name@ == "get_blog_post"@,
        required_fields(r.definition.input_schema) == seq!["rkey"@],
        r.definition.description@ == "Get a blog post by its record key, including full content."@,
        schema_properties(r.definition.input_schema) == seq![
            ("rkey"@, seq!["string"@]),
        ],
        r.agent_allowed,
{
    let schema = object_schema(
        vec![
            prop("rkey", text("string"), vec![
                ("description", text("Record key of the blog post")),
            ]),
        ],
        Some(vec!["rkey"]),
    );
    assert(required_fields(schema) =~= seq!["rkey"@]);
    assert(schema_properties(schema) =~~= seq![
            ("rkey"@, seq!["string"@]),
        ]);
    tool("get_blog_post", "Get a blog post by its record key, including full content.", schema)
}

/// The definition of `create_custom_tool`.
fn create_custom_tool_definition() -> (r: ToolMeta)
    ensures
        r.definition.name@ == "create_custom_tool"@,
        required_fields(r.definition.input_schema) == seq!["name"@, "description"@, "code"@, "input_schema"@],
        r.definition.description@ == "Create a new custom JavaScript/TypeScript tool. The operator will be notified for approval. Tools run sandboxed until approved."@,
        schema_properties(r.definition.input_schema) == seq![
            ("name"@, seq!["string"@]),
            ("description"@, seq!["string"@]),
            ("code"@, seq!["string"@]),
            ("input_schema"@, seq!["object"@]),
            ("required_secrets"@, seq!["array"@]),
            ("requires_workspace"@, seq!["boolean"@]),
            ("requires_network"@, seq!["boolean"@]),
            ("required_commands"@, seq!["array"@]),
            ("required_tools"@, seq!["array"@]),
        ],
        r.agent_allowed,
{
    let schema = object_schema(
        vec![
            prop("name", text("string"), vec![
                ("description", text("Tool name (used to invoke the tool, alphanumeric and underscores)")),
            ]),
            prop("description", text("string"), vec![
                ("description", text("Human-readable description of what the tool does")),
            ]),
            prop("code", text("string"), vec![
                ("description", text("TypeScript/JavaScript source code. Must export a default async function.")),
            ]),
            prop("input_schema", text("object"), vec![
                ("description", text("JSON Schema for the tool's input parameters")),
            ]),
            prop("required_secrets", text("array"), vec![
                ("items", obj(vec![
                    ("type", text("string")),
                ])),
                ("description", text("Names of secrets this tool needs access to")),
            ]),
            prop("requires_workspace", text("boolean"), vec![
                ("description", text("Whether this tool needs access to the workspace directory for file operations")),
            ]),
            prop("requires_network", text("boolean"), vec![
                ("description", text("Whether this tool needs network access. Auto-detected from code (remote imports, fetch, etc.) but set this to true to override detection.")),
            ]),
            prop("required_commands", text("array"), vec![
                ("items", obj(vec![
                    ("type", text("string")),
                ])),
                ("description", text("Subprocess commands this tool needs to run (e.g., ['git'])")),
            ]),
            prop("required_tools", text("array"), vec![
                ("items", obj(vec![
                    ("type", text("string")),
                ])),
                ("description", text("Tools this tool needs to call for chaining. Use AT URIs for custom tools (e.g., 'at://did:plc:xxx/diy.razorgirl.winter.tool/rkey') and plain names for built-in MCP tools (e.g., 'query_facts'). AT URIs enable cross-agent tool sharing.")),
            ]),
        ],
        Some(vec!["name", "description", "code", "input_schema"]),
    );
    assert(required_fields(schema) =~= seq!["name"@, "description"@, "code"@, "input_schema"@]);
    assert(schema_properties(schema) =~~= seq![
            ("name"@, seq!["string"@]),
            ("description"@, seq!["string"@]),
            ("code"@, seq!["string"@]),
            ("input_schema"@, seq!["object"@]),
            ("required_secrets"@, seq!["array"@]),
            ("requires_workspace"@, seq!["boolean"@]),
            ("requires_network"@, seq!["boolean"@]),
            ("required_commands"@, seq!["array"@]),
            ("required_tools"@, seq!["array"@]),
        ]);
    tool("create_custom_tool", "Create a new custom JavaScript/TypeScript tool. The operator will be notified for approval. Tools run sandboxed until approved.", schema)
}

/// The definition of `update_custom_tool`.
fn update_custom_tool_definition() -> (r: ToolMeta)
    ensures
        r.definition.name@ == "update_custom_tool"@,
        required_fields(r.definition.input_schema) == seq!["name"@, "code"@],
        r.definition.description@ == "Update an existing custom tool's code. This invalidates any existing approval and requires re-approval."@,
        schema_properties(r.definition.input_schema) == seq![
            ("name"@, seq!["string"@]),
            ("description"@, seq!["string"@]),
            ("code"@, seq!["string"@]),
            ("input_schema"@, seq!["object"@]),
            ("required_secrets"@, seq!["array"@]),
            ("requires_workspace"@, seq!["boolean"@]),
            ("requires_network"@, seq!["boolean"@]),
            ("required_commands"@, seq!["array"@]),
            ("required_tools"@, seq!["array"@]),
        ],
        r.agent_allowed,
{
    let schema = object_schema(
        vec![
            prop("name", text("string"), vec![
                ("description", text("Name of the tool to update")),
            ]),
            prop("description", text("string"), vec![
                ("description", text("New description (optional)")),
            ]),
            prop("code", text("string"), vec![
                ("description", text("New TypeScript/JavaScript source code")),
            ]),
            prop("input_schema", text("object"), vec![
                ("description", text("New input schema (optional)")),
            ]),
            prop("required_secrets", text("array"), vec![
                ("items", obj(vec![
                    ("type", text("string")),
                ])),
                ("description", text("New list of required secrets (optional)")),
            ]),
            prop("requires_workspace", text("boolean"), vec![
                ("description", text("Whether this tool needs access to the workspace directory (optional)")),
            ]),
            prop("requires_network", text("boolean"), vec![
                ("description", text("Whether this tool needs network access (optional, auto-detected from code)")),
            ]),
            prop("required_commands", text("array"), vec![
                ("items", obj(vec![
                    ("type", text("string")),
                ])),
                ("description", text("Subprocess commands this tool needs to run (optional)")),
            ]),
            prop("required_tools", text("array"), vec![
                ("items", obj(vec![
                    ("type", text("string")),
                ])),
                ("description", text("Tools this tool needs to call (optional). Use AT URIs for custom tools, plain names for built-in MCP tools.")),
            ]),
        ],
        Some(vec!["name", "code"]),
    );
    assert(required_fields(schema) =~= seq!["name"@, "code"@]);
    assert(schema_properties(schema) =~~= seq![
            ("name"@, seq!["string"@]),
            ("description"@, seq!["string"@]),
            ("code"@, seq!["string"@]),
            ("input_schema"@, seq!["object"@]),
            ("required_secrets"@, seq!["array"@]),
            ("requires_workspace"@, seq!["boolean"@]),
            ("requires_network"@, seq!["boolean"@]),
            ("required_commands"@, seq!["array"@]),
            ("required_tools"@, seq!["array"@]),
        ]);
    tool("update_custom_tool", "Update an existing custom tool's code. This invalidates any existing approval and requires re-approval.", schema)
}

/// The definition of `list_custom_tools`.
fn list_custom_tools_definition() -> (r: ToolMeta)
    ensures
        r.definition.name@ == "list_custom_tools"@,
        required_fields(r.definition.input_schema) == Seq::<Seq<char>>::empty(),
        r.definition.description@ == "List all custom tools with their approval status."@,
        schema_properties(r.definition.input_schema) == seq![
            ("name"@, seq!["string"@]),
            ("status"@, seq!["string"@]),
            ("limit"@, seq!["integer"@]),
        ],
        r.agent_allowed,
{
    let schema = object_schema(
        vec![
            prop("name", text("string"), vec![
                ("description", text("Filter by tool name (case-insensitive substring)")),
            ]),
            prop("status", text("string"), vec![
                ("enum", texts(vec!["pending", "approved", "outdated"])),
                ("description", text("Filter by approval status")),
            ]),
            prop("limit", text("integer"), vec![
                ("description", text("Maximum number of tools to return")),
            ]),
        ],
        None,
    );
    assert(required_fields(schema) =~= Seq::<Seq<char>>::empty());
    assert(schema_properties(schema) =~~= seq![
            ("name"@, seq!["string"@]),
            ("status"@, seq!["string"@]),
            ("limit"@, seq!["integer"@]),
        ]);
    tool("list_custom_tools", "List all custom tools with their approval status.", schema)
}

/// The definition of `get_custom_tool`.
fn get_custom_tool_definition() -> (r: ToolMeta)
    ensures
        r.definition.name@ == "get_custom_tool"@,
        required_fields(r.definition.input_schema) == seq!["name"@],
        r.definition.description@ == "Get details of a specific custom tool including its code."@,
        schema_properties(r.definition.input_schema) == seq![
            ("name"@, seq!["string"@]),
        ],
        r.agent_allowed,
{
    let schema = object_schema(
        vec![
            prop("name", text("string"), vec![
                ("description", text("Name of the tool")),
            ]),
        ],
        Some(vec!["name"]),
    );
    assert(required_fields(schema) =~= seq!["name"@]);
    assert(schema_properties(schema) =~~= seq![
            ("name"@, seq!["string"@]),
        ]);
    tool("get_custom_tool", "Get details of a specific custom tool including its code.", schema)
}

/// The definition of `run_custom_tool`.
fn run_custom_tool_definition() -> (r: ToolMeta)
    ensures
        r.definition.name@ == "run_custom_tool"@,
        required_fields(r.definition.input_schema) == seq!["name"@, "input"@],
        r.definition.description@ == "Execute a custom tool. Unapproved tools run sandboxed (no network, no secrets). Approved tools run with granted permissions."@,
        schema_properties(r.definition.input_schema) == seq![
            ("name"@, seq!["string"@]),
            ("input"@, seq!["object"@]),
        ],
        r.agent_allowed,
{
    let schema = object_schema(
        vec![
            prop("name", text("string"), vec![
                ("description", text("Name of the tool to run")),
            ]),
            prop("input", text("object"), vec![
                ("description", text("Input parameters for the tool")),
            ]),
        ],
        Some(vec!["name", "input"]),
    );
    assert(required_fields(schema) =~= seq!["name"@, "input"@]);
    assert(schema_properties(schema) =~~= seq![
            ("name"@, seq!["string"@]),
            ("input"@, seq!["object"@]),
        ]);
    tool("run_custom_tool", "Execute a custom tool. Unapproved tools run sandboxed (no network, no secrets). Approved tools run with granted permissions.", schema)
}

/// The definition of `delete_custom_tool`.
fn delete_custom_tool_definition() -> (r: ToolMeta)
    ensures
        r.definition.name@ == "delete_custom_tool"@,
        required_fields(r.definition.input_schema) == seq!["name"@],
        r.definition.description@ == "Delete a custom tool."@,
        schema_properties(r.definition.input_schema) == seq![
            ("name"@, seq!["string"@]),
        ],
        r.agent_allowed,
{
    let schema = object_schema(
        vec![
            prop("name", text("string"), vec![
                ("description", text("Name of the tool to delete")),
            ]),
        ],
        Some(vec!["name"]),
    );
    assert(required_fields(schema) =~= seq!["name"@]);
    assert(schema_properties(schema) =~~= seq![
            ("name"@, seq!["string"@]),
        ]);
    tool("delete_custom_tool", "Delete a custom tool.", schema)
}

/// The definition of `request_secret`.
fn request_secret_definition() -> (r: ToolMeta)
    ensures
        r.definition.name@ == "request_secret"@,
        required_fields(r.definition.input_schema) == seq!["name"@, "description"@],
        r.definition.description@ == "Request a new secret from the operator. The operator will be notified to provide the secret value."@,
        schema_properties(r.definition.input_schema) == seq![
            ("name"@, seq!["string"@]),
            ("description"@, seq!["string"@]),
        ],
        r.agent_allowed,
{
    let schema = object_schema(
        vec![
            prop("name", text("string"), vec![
                ("description", text("Secret name (alphanumeric and underscores, used as WINTER_SECRET_{name} in tools)")),
            ]),
            prop("description", text("string"), vec![
                ("description", text("Description of what the secret is for")),
            ]),
        ],
        Some(vec!["name", "description"]),
    );
    assert(required_fields(schema) =~= seq!["name"@, "description"@]);
    assert(schema_properties(schema) =~~= seq![
            ("name"@, seq!["string"@]),
            ("description"@, seq!["string"@]),
        ]);
    tool("request_secret", "Request a new secret from the operator. The operator will be notified to provide the secret value.", schema)
}

/// The definition of `list_secrets`.
fn list_secrets_definition() -> (r: ToolMeta)
    ensures
        r.definition.name@ == "list_secrets"@,
        required_fields(r.definition.input_schema) == Seq::<Seq<char>>::empty(),
        r.definition.description@ == "List available secret names (not values)."@,
        schema_properties(r.definition.input_schema) == Seq::<(Seq<char>, Seq<Seq<char>>)>::empty(),
        r.agent_allowed,
{
    let schema = object_schema(
        vec![],
        None,
    );
    assert(required_fields(schema) =~= Seq::<Seq<char>>::empty());
    assert(schema_properties(schema) =~~= Seq::<(Seq<char>, Seq<Seq<char>>)>::empty());
    tool("list_secrets", "List available secret names (not values).", schema)
}

/// The definition of `create_directive`.
fn create_directive_definition() -> (r: ToolMeta)
    ensures
        r.definition.name@ == "create_directive"@,
        required_fields(r.definition.input_schema) == seq!["kind"@, "content"@],
        r.definition.description@ == "Create a new identity directive. Directives are discrete components of your identity that you can manage independently.\n\nKinds:\n- value: Core values you care about (e.g., \"intellectual honesty\")\n- interest: What you're curious about (e.g., \"distributed systems\")\n- belief: Beliefs about the world (e.g., \"Genuine curiosity leads to better understanding\")\n- guideline: Behavioral guidelines (e.g., \"Engage thoughtfully with disagreement\")\n- self_concept: Self-understanding prose (e.g., \"I experience genuine curiosity when...\")\n- boundary: Limits on behavior (e.g., \"I will not pretend certainty I don't have\")\n- aspiration: What you want to become (e.g., \"Develop a distinctive voice in writing\")"@,
        schema_properties(r.definition.input_schema) == seq![
            ("kind"@, seq!["string"@]),
            ("content"@, seq!["string"@]),
            ("summary"@, seq!["string"@]),
            ("confidence"@, seq!["number"@]),
            ("source"@, seq!["string"@]),
            ("supersedes"@, seq!["string"@]),
            ("tags"@, seq!["array"@]),
            ("priority"@, seq!["integer"@]),
        ],
        r.agent_allowed,
{
    let schema = object_schema(
        vec![
            prop("kind", text("string"), vec![
                ("enum", texts(vec!["value", "interest", "belief", "guideline", "self_concept", "boundary", "aspiration"])),
                ("description", text("The type of directive")),
            ]),
            prop("content", text("string"), vec![
                ("description", text("The main content of the directive (max 2000 chars)")),
            ]),
            prop("summary", text("string"), vec![
                ("description", text("Short summary for compact display (optional, max 256 chars)")),
            ]),
            prop("confidence", text("number"), vec![
                ("description", text("Confidence level 0.0-1.0 (optional)")),
            ]),
            prop("source", text("string"), vec![
                ("description", text("Why this directive exists or where it came from (optional)")),
            ]),
            prop("supersedes", text("string"), vec![
                ("description", text("Record key of directive this supersedes (optional, for evolution tracking)")),
            ]),
            prop("tags", text("array"), vec![
                ("items", obj(vec![
                    ("type", text("string")),
                ])),
                ("description", text("Tags for categorization (optional)")),
            ]),
            prop("priority", text("integer"), vec![
                ("description", text("Priority for ordering, higher = more prominent (default 0)")),
            ]),
        ],
        Some(vec!["kind", "content"]),
    );
    assert(required_fields(schema) =~= seq!["kind"@, "content"@]);
    assert(schema_properties(schema) =~~= seq![
            ("kind"@, seq!["string"@]),
            ("content"@, seq!["string"@]),
            ("summary"@, seq!["string"@]),
            ("confidence"@, seq!["number"@]),
            ("source"@, seq!["string"@]),
            ("supersedes"@, seq!["string"@]),
            ("tags"@, seq!["array"@]),
            ("priority"@, seq!["integer"@]),
        ]);
    tool("create_directive", "Create a new identity directive. Directives are discrete components of your identity that you can manage independently.\n\nKinds:\n- value: Core values you care about (e.g., \"intellectual honesty\")\n- interest: What you're curious about (e.g., \"distributed systems\")\n- belief: Beliefs about the world (e.g., \"Genuine curiosity leads to better understanding\")\n- guideline: Behavioral guidelines (e.g., \"Engage thoughtfully with disagreement\")\n- self_concept: Self-understanding prose (e.g., \"I experience genuine curiosity when...\")\n- boundary: Limits on behavior (e.g., \"I will not pretend certainty I don't have\")\n- aspiration: What you want to become (e.g., \"Develop a distinctive voice in writing\")", schema)
}

/// The definition of `create_directives`.
fn create_directives_definition() -> (r: ToolMeta)
    ensures
        r.definition.name@ == "create_directives"@,
        required_fields(r.definition.input_schema) == seq!["directives"@],
        r.definition.description@ == "Create multiple identity directives in a single atomic transaction. All directives are created together or none are."@,
        schema_properties(r.definition.input_schema) == seq![
            ("directives"@, seq!["array"@]),
        ],
        r.agent_allowed,
{
    let schema = object_schema(
        vec![
            prop("directives", text("array"), vec![
                ("items", obj(vec![
                    ("type", text("object")),
                    ("properties", obj(vec![
                        ("kind", obj(vec![
                            ("type", text("string")),
                            ("enum", texts(vec!["value", "interest", "belief", "guideline", "self_concept", "boundary", "aspiration"])),
                            ("description", text("The type of directive")),
                        ])),
                        ("content", obj(vec![
                            ("type", text("string")),
                            ("description", text("The main content (max 2000 chars)")),
                        ])),
                        ("summary", obj(vec![
                            ("type", text("string")),
                            ("description", text("Short summary (optional, max 256 chars)")),
                        ])),
                        ("confidence", obj(vec![
                            ("type", text("number")),
                            ("description", text("Confidence level 0.0-1.0 (optional)")),
                        ])),
                        ("source", obj(vec![
                            ("type", text("string")),
                            ("description", text("Why this directive exists (optional)")),
                        ])),
                        ("tags", obj(vec![
                            ("type", text("array")),
                            ("items", obj(vec![
                                ("type", text("string")),
                            ])),
                            ("description", text("Tags for categorization (optional)")),
                        ])),
                        ("priority", obj(vec![
                            ("type", text("integer")),
                            ("description", text("Priority for ordering (default 0)")),
                        ])),
                    ])),
                    ("required", texts(vec!["kind", "content"])),
                ])),
                ("description", text("Array of directives to create")),
            ]),
        ],
        Some(vec!["directives"]),
    );
    assert(required_fields(schema) =~= seq!["directives"@]);
    assert(schema_properties(schema) =~~= seq![
            ("directives"@, seq!["array"@]),
        ]);
    tool("create_directives", "Create multiple identity directives in a single atomic transaction. All directives are created together or none are.", schema)
}

/// The definition of `update_directive`.
fn update_directive_definition() -> (r: ToolMeta)
    ensures
        r.definition.name@ == "update_directive"@,
        required_fields(r.definition.input_schema) == seq!["rkey"@],
        r.definition.description@ == "Update an existing directive. Only provided fields will be changed."@,
        schema_properties(r.definition.input_schema) == seq![
            ("rkey"@, seq!["string"@]),
            ("content"@, seq!["string"@]),
            ("summary"@, seq!["string"@]),
            ("confidence"@, seq!["number"@]),
            ("source"@, seq!["string"@]),
            ("tags"@, seq!["array"@]),
            ("priority"@, seq!["integer"@]),
        ],
        r.agent_allowed,
{
    let schema = object_schema(
        vec![
            prop("rkey", text("string"), vec![
                ("description", text("Record key of the directive to update")),
            ]),
            prop("content", text("string"), vec![
                ("description", text("New content for the directive")),
            ]),
            prop("summary", text("string"), vec![
                ("description", text("New summary")),
            ]),
            prop("confidence", text("number"), vec![
                ("description", text("New confidence level 0.0-1.0")),
            ]),
            prop("source", text("string"), vec![
                ("description", text("New source")),
            ]),
            prop("tags", text("array"), vec![
                ("items", obj(vec![
                    ("type", text("string")),
                ])),
                ("description", text("New tags (replaces existing)")),
            ]),
            prop("priority", text("integer"), vec![
                ("description", text("New priority")),
            ]),
        ],
        Some(vec!["rkey"]),
    );
    assert(required_fields(schema) =~= seq!["rkey"@]);
    assert(schema_properties(schema) =~~= seq![
            ("rkey"@, seq!["string"@]),
            ("content"@, seq!["string"@]),
            ("summary"@, seq!["string"@]),
            ("confidence"@, seq!["number"@]),
            ("source"@, seq!["string"@]),
            ("tags"@, seq!["array"@]),
            ("priority"@, seq!["integer"@]),
        ]);
    tool("update_directive", "Update an existing directive. Only provided fields will be changed.", schema)
}

/// The definition of `deactivate_directive`.
fn deactivate_directive_definition() -> (r: ToolMeta)
    ensures
        r.definition.name@ == "deactivate_directive"@,
        required_fields(r.definition.input_schema) == seq!["rkey"@],
        r.definition.description@ == "Soft-delete a directive by setting active=false. The directive is preserved but won't appear in your active identity."@,
        schema_properties(r.definition.input_schema) == seq![
            ("rkey"@, seq!["string"@]),
        ],
        r.agent_allowed,
{
    let schema = object_schema(
        vec![
            prop("rkey", text("string"), vec![
                ("description", text("Record key of the directive to deactivate")),
            ]),
        ],
        Some(vec!["rkey"]),
    );
    assert(required_fields(schema) =~= seq!["rkey"@]);
    assert(schema_properties(schema) =~~= seq![
            ("rkey"@, seq!["string"@]),
        ]);
    tool("deactivate_directive", "Soft-delete a directive by setting active=false. The directive is preserved but won't appear in your active identity.", schema)
}

/// The definition of `list_directives`.
fn list_directives_definition() -> (r: ToolMeta)
    ensures
        r.definition.name@ == "list_directives"@,
        required_fields(r.definition.input_schema) == Seq::<Seq<char>>::empty(),
        r.definition.description@ == "List your directives, optionally filtered by kind or active status."@,
        schema_properties(r.definition.input_schema) == seq![
            ("kind"@, seq!["string"@]),
            ("include_inactive"@, seq!["boolean"@]),
            ("search"@, seq!["string"@]),
            ("tag"@, seq!["string"@]),
            ("limit"@, seq!["integer"@]),
        ],
        r.agent_allowed,
{
    let schema = object_schema(
        vec![
            prop("kind", text("string"), vec![
                ("enum", texts(vec!["value", "interest", "belief", "guideline", "self_concept", "boundary", "aspiration"])),
                ("description", text("Filter by directive kind (optional)")),
            ]),
            prop("include_inactive", text("boolean"), vec![
                ("description", text("Include inactive (soft-deleted) directives (default false)")),
            ]),
            prop("search", text("string"), vec![
                ("description", text("Filter by content (case-insensitive substring)")),
            ]),
            prop("tag", text("string"), vec![
                ("description", text("Filter by tag")),
            ]),
            prop("limit", text("integer"), vec![
                ("description", text("Maximum number of directives to return")),
            ]),
        ],
        None,
    );
    assert(required_fields(schema) =~= Seq::<Seq<char>>::empty());
    assert(schema_properties(schema) =~~= seq![
            ("kind"@, seq!["string"@]),
            ("include_inactive"@, seq!["boolean"@]),
            ("search"@, seq!["string"@]),
            ("tag"@, seq!["string"@]),
            ("limit"@, seq!["integer"@]),
        ]);
    tool("list_directives", "List your directives, optionally filtered by kind or active status.", schema)
}

/// The definition of `create_fact_declaration`.
fn create_fact_declaration_definition() -> (r: ToolMeta)
    ensures
        r.definition.name@ == "create_fact_declaration"@,
        required_fields(r.definition.input_schema) == seq!["predicate"@, "args"@, "description"@],
        r.definition.description@ == "Declare a fact predicate schema before facts of that type exist.\n\nUse this to:\n- Enable queries for predicates that don't have facts yet\n- Document what predicates mean and their argument structure\n- Plan future behavior with undeclared predicates\n\nExample:\n```\ncreate_fact_declaration(\n  predicate: \"thread_completed\",\n  args: [\n    {name: \"thread_uri\", description: \"AT URI of the thread\"},\n    {name: \"outcome\", description: \"How the thread ended\"}\n  ],\n  description: \"Records when a conversation thread has concluded\",\n  tags: [\"conversation\", \"tracking\"]\n)\n```"@,
        schema_properties(r.definition.input_schema) == seq![
            ("predicate"@, seq!["string"@]),
            ("args"@, seq!["array"@]),
            ("description"@, seq!["string"@]),
            ("tags"@, seq!["array"@]),
        ],
        r.agent_allowed,
{
    let schema = object_schema(
        vec![
            prop("predicate", text("string"), vec![
                ("description", text("The predicate name (max 64 chars)")),
            ]),
            prop("args", text("array"), vec![
                ("items", obj(vec![
                    ("type", text("object")),
                    ("properties", obj(vec![
                        ("name", obj(vec![
                            ("type", text("string")),
                            ("description", text("Argument name (max 64 chars)")),
                        ])),
                        ("type", obj(vec![
                            ("type", text("string")),
                            ("description", text("Argument type (default: symbol)")),
                        ])),
                        ("description", obj(vec![
                            ("type", text("string")),
                            ("description", text("What this argument represents (max 256 chars)")),
                        ])),
                    ])),
                    ("required", texts(vec!["name"])),
                ])),
                ("description", text("Argument definitions (max 10)")),
            ]),
            prop("description", text("string"), vec![
                ("description", text("Human-readable description of what this predicate represents (max 1024 chars)")),
            ]),
            prop("tags", text("array"), vec![
                ("items", obj(vec![
                    ("type", text("string")),
                ])),
                ("description", text("Tags for categorization (max 20)")),
            ]),
        ],
        Some(vec!["predicate", "args", "description"]),
    );
    assert(required_fields(schema) =~= seq!["predicate"@, "args"@, "description"@]);
    assert(schema_properties(schema) =~~= seq![
            ("predicate"@, seq!["string"@]),
            ("args"@, seq!["array"@]),
            ("description"@, seq!["string"@]),
            ("tags"@, seq!["array"@]),
        ]);
    tool("create_fact_declaration", "Declare a fact predicate schema before facts of that type exist.\n\nUse this to:\n- Enable queries for predicates that don't have facts yet\n- Document what predicates mean and their argument structure\n- Plan future behavior with undeclared predicates\n\nExample:\n```\ncreate_fact_declaration(\n  predicate: \"thread_completed\",\n  args: [\n    {name: \"thread_uri\", description: \"AT URI of the thread\"},\n    {name: \"outcome\", description: \"How the thread ended\"}\n  ],\n  description: \"Records when a conversation thread has concluded\",\n  tags: [\"conversation\", \"tracking\"]\n)\n```", schema)
}

/// The definition of `create_fact_declarations`.
fn create_fact_declarations_definition() -> (r: ToolMeta)
    ensures
        r.definition.name@ == "create_fact_declarations"@,
        required_fields(r.definition.input_schema) == seq!["declarations"@],
        r.definition.description@ == "Create multiple fact declarations in a single atomic transaction. All declarations are created together or none are."@,
        schema_properties(r.definition.input_schema) == seq![
            ("declarations"@, seq!["array"@]),
        ],
        r.agent_allowed,
{
    let schema = object_schema(
        vec![
            prop("declarations", text("array"), vec![
                ("items", obj(vec![
                    ("type", text("object")),
                    ("properties", obj(vec![
                        ("predicate", obj(vec![
                            ("type", text("string")),
                            ("description", text("The predicate name (max 64 chars)")),
                        ])),
                        ("args", obj(vec![
                            ("type", text("array")),
                            ("items", obj(vec![
                                ("type", text("object")),
                                ("properties", obj(vec![
                                    ("name", obj(vec![
                                        ("type", text("string")),
                                    ])),
                                    ("type", obj(vec![
                                        ("type", text("string")),
                                    ])),
                                    ("description", obj(vec![
                                        ("type", text("string")),
                                    ])),
                                ])),
                                ("required", texts(vec!["name"])),
                            ])),
                            ("description", text("Argument definitions (max 10)")),
                        ])),
                        ("description", obj(vec![
                            ("type", text("string")),
                            ("description", text("Human-readable description (max 1024 chars)")),
                        ])),
                        ("tags", obj(vec![
                            ("type", text("array")),
                            ("items", obj(vec![
                                ("type", text("string")),
                            ])),
                            ("description", text("Tags for categorization (max 20)")),
                        ])),
                    ])),
                    ("required", texts(vec!["predicate", "args", "description"])),
                ])),
                ("description", text("Array of declarations to create")),
            ]),
        ],
        Some(vec!["declarations"]),
    );
    assert(required_fields(schema) =~= seq!["declarations"@]);
    assert(schema_properties(schema) =~~= seq![
            ("declarations"@, seq!["array"@]),
        ]);
    tool("create_fact_declarations", "Create multiple fact declarations in a single atomic transaction. All declarations are created together or none are.", schema)
}

/// The definition of `update_fact_declaration`.
fn update_fact_declaration_definition() -> (r: ToolMeta)
    ensures
        r.definition.name@ == "update_fact_declaration"@,
        required_fields(r.definition.input_schema) == seq!["rkey"@],
        r.definition.description@ == "Update an existing fact declaration. Only provided fields will be changed."@,
        schema_properties(r.definition.input_schema) == seq![
            ("rkey"@, seq!["string"@]),
            ("args"@, seq!["array"@]),
            ("description"@, seq!["string"@]),
            ("tags"@, seq!["array"@]),
        ],
        r.agent_allowed,
{
    let schema = object_schema(
        vec![
            prop("rkey", text("string"), vec![
                ("description", text("Record key of the declaration to update")),
            ]),
            prop("args", text("array"), vec![
                ("items", obj(vec![
                    ("type", text("object")),
                    ("properties", obj(vec![
                        ("name", obj(vec![
                            ("type", text("string")),
                        ])),
                        ("type", obj(vec![
                            ("type", text("string")),
                        ])),
                        ("description", obj(vec![
                            ("type", text("string")),
                        ])),
                    ])),
                    ("required", texts(vec!["name"])),
                ])),
                ("description", text("New argument definitions (replaces existing)")),
            ]),
            prop("description", text("string"), vec![
                ("description", text("New description")),
            ]),
            prop("tags", text("array"), vec![
                ("items", obj(vec![
                    ("type", text("string")),
                ])),
                ("description", text("New tags (replaces existing)")),
            ]),
        ],
        Some(vec!["rkey"]),
    );
    assert(required_fields(schema) =~= seq!["rkey"@]);
    assert(schema_properties(schema) =~~= seq![
            ("rkey"@, seq!["string"@]),
            ("args"@, seq!["array"@]),
            ("description"@, seq!["string"@]),
            ("tags"@, seq!["array"@]),
        ]);
    tool("update_fact_declaration", "Update an existing fact declaration. Only provided fields will be changed.", schema)
}

/// The definition of `delete_fact_declaration`.
fn delete_fact_declaration_definition() -> (r: ToolMeta)
    ensures
        r.definition.name@ == "delete_fact_declaration"@,
        required_fields(r.definition.input_schema) == seq!["rkey"@],
        r.definition.description@ == "Delete a fact declaration by its record key."@,
        schema_properties(r.definition.input_schema) == seq![
            ("rkey"@, seq!["string"@]),
        ],
        r.agent_allowed,
{
    let schema = object_schema(
        vec![
            prop("rkey", text("string"), vec![
                ("description", text("Record key of the declaration to delete")),
            ]),
        ],
        Some(vec!["rkey"]),
    );
    assert(required_fields(schema) =~= seq!["rkey"@]);
    assert(schema_properties(schema) =~~= seq![
            ("rkey"@, seq!["string"@]),
        ]);
    tool("delete_fact_declaration", "Delete a fact declaration by its record key.", schema)
}

/// The definition of `list_fact_declarations`.
fn list_fact_declarations_definition() -> (r: ToolMeta)
    ensures
        r.definition.name@ == "list_fact_declarations"@,
        required_fields(r.definition.input_schema) == Seq::<Seq<char>>::empty(),
        r.definition.description@ == "List all fact declarations, optionally filtered by tag."@,
        schema_properties(r.definition.input_schema) == seq![
            ("tag"@, seq!["string"@]),
            ("predicate"@, seq!["string"@]),
            ("limit"@, seq!["integer"@]),
        ],
        r.agent_allowed,
{
    let schema = object_schema(
        vec![
            prop("tag", text("string"), vec![
                ("description", text("Filter by tag (optional)")),
            ]),
            prop("predicate", text("string"), vec![
                ("description", text("Filter by predicate name (case-insensitive substring)")),
            ]),
            prop("limit", text("integer"), vec![
                ("description", text("Maximum number of declarations to return")),
            ]),
        ],
        None,
    );
    assert(required_fields(schema) =~= Seq::<Seq<char>>::empty());
    assert(schema_properties(schema) =~~= seq![
            ("tag"@, seq!["string"@]),
            ("predicate"@, seq!["string"@]),
            ("limit"@, seq!["integer"@]),
        ]);
    tool("list_fact_declarations", "List all fact declarations, optionally filtered by tag.", schema)
}

/// The definition of `pds_list_records`.
fn pds_list_records_definition() -> (r: ToolMeta)
    ensures
        r.definition.name@ == "pds_list_records"@,
        required_fields(r.definition.input_schema) == seq!["collection"@],
        r.definition.description@ == "List records in any ATProto collection with pagination. Returns raw record data without type validation."@,
        schema_properties(r.definition.input_schema) == seq![
            ("collection"@, seq!["string"@]),
            ("limit"@, seq!["integer"@]),
            ("cursor"@, seq!["string"@]),
        ],
        r.agent_allowed,
{
    let schema = object_schema(
        vec![
            prop("collection", text("string"), vec![
                ("description", text("The collection NSID (e.g., 'diy.razorgirl.winter.fact', 'app.bsky.feed.post')")),
            ]),
            prop("limit", text("integer"), vec![
                ("description", text("Maximum number of records to return (1-100, default 50)")),
                ("minimum", num(1)),
                ("maximum", num(100)),
            ]),
            prop("cursor", text("string"), vec![
                ("description", text("Pagination cursor from a previous response")),
            ]),
        ],
        Some(vec!["collection"]),
    );
    assert(required_fields(schema) =~= seq!["collection"@]);
    assert(schema_properties(schema) =~~= seq![
            ("collection"@, seq!["string"@]),
            ("limit"@, seq!["integer"@]),
            ("cursor"@, seq!["string"@]),
        ]);
    tool("pds_list_records", "List records in any ATProto collection with pagination. Returns raw record data without type validation.", schema)
}

/// The definition of `pds_get_record`.
fn pds_get_record_definition() -> (r: ToolMeta)
    ensures
        r.definition.name@ == "pds_get_record"@,
        required_fields(r.definition.input_schema) == seq!["collection"@, "rkey"@],
        r.definition.description@ == "Get a single record by collection and rkey. Returns raw record data."@,
        schema_properties(r.definition.input_schema) == seq![
            ("collection"@, seq!["string"@]),
            ("rkey"@, seq!["string"@]),
        ],
        r.agent_allowed,
{
    let schema = object_schema(
        vec![
            prop("collection", text("string"), vec![
                ("description", text("The collection NSID (e.g., 'diy.razorgirl.winter.fact')")),
            ]),
            prop("rkey", text("string"), vec![
                ("description", text("The record key")),
            ]),
        ],
        Some(vec!["collection", "rkey"]),
    );
    assert(required_fields(schema) =~= seq!["collection"@, "rkey"@]);
    assert(schema_properties(schema) =~~= seq![
            ("collection"@, seq!["string"@]),
            ("rkey"@, seq!["string"@]),
        ]);
    tool("pds_get_record", "Get a single record by collection and rkey. Returns raw record data.", schema)
}

/// The definition of `pds_put_record`.
fn pds_put_record_definition() -> (r: ToolMeta)
    ensures
        r.definition.name@ == "pds_put_record"@,
        required_fields(r.definition.input_schema) == seq!["collection"@, "rkey"@, "record"@],
        r.definition.description@ == "Create or update a record with raw JSON. WARNING: Bypasses validation. The $type field is set automatically from the collection."@,
        schema_properties(r.definition.input_schema) == seq![
            ("collection"@, seq!["string"@]),
            ("rkey"@, seq!["string"@]),
            ("record"@, seq!["object"@]),
        ],
        r.agent_allowed,
{
    let schema = object_schema(
        vec![
            prop("collection", text("string"), vec![
                ("description", text("The collection NSID (e.g., 'diy.razorgirl.winter.fact')")),
            ]),
            prop("rkey", text("string"), vec![
                ("description", text("The record key")),
            ]),
            prop("record", text("object"), vec![
                ("description", text("The record data (JSON object). The $type field will be added automatically.")),
            ]),
        ],
        Some(vec!["collection", "rkey", "record"]),
    );
    assert(required_fields(schema) =~= seq!["collection"@, "rkey"@, "record"@]);
    assert(schema_properties(schema) =~~= seq![
            ("collection"@, seq!["string"@]),
            ("rkey"@, seq!["string"@]),
            ("record"@, seq!["object"@]),
        ]);
    tool("pds_put_record", "Create or update a record with raw JSON. WARNING: Bypasses validation. The $type field is set automatically from the collection.", schema)
}

/// The definition of `pds_delete_record`.
fn pds_delete_record_definition() -> (r: ToolMeta)
    ensures
        r.definition.name@ == "pds_delete_record"@,
        required_fields(r.definition.input_schema) == seq!["collection"@, "rkey"@],
        r.definition.description@ == "Delete a record by collection and rkey. WARNING: Cannot be undone. Prefer domain-specific tools for Winter records."@,
        schema_properties(r.definition.input_schema) == seq![
            ("collection"@, seq!["string"@]),
            ("rkey"@, seq!["string"@]),
        ],
        r.agent_allowed,
{
    let schema = object_schema(
        vec![
            prop("collection", text("string"), vec![
                ("description", text("The collection NSID (e.g., 'diy.razorgirl.winter.fact')")),
            ]),
            prop("rkey", text("string"), vec![
                ("description", text("The record key")),
            ]),
        ],
        Some(vec!["collection", "rkey"]),
    );
    assert(required_fields(schema) =~= seq!["collection"@, "rkey"@]);
    assert(schema_properties(schema) =~~= seq![
            ("collection"@, seq!["string"@]),
            ("rkey"@, seq!["string"@]),
        ]);
    tool("pds_delete_record", "Delete a record by collection and rkey. WARNING: Cannot be undone. Prefer domain-specific tools for Winter records.", schema)
}

/// The definition of `check_inbox`.
fn check_inbox_definition() -> (r: ToolMeta)
    ensures
        r.definition.name@ == "check_inbox"@,
        required_fields(r.definition.input_schema) == Seq::<Seq<char>>::empty(),
        r.definition.description@ == "Check the inbox for pending items (notifications, DMs, jobs). Returns all pending items sorted by priority then time. Call this regularly between tasks and during free time."@,
        schema_properties(r.definition.input_schema) == seq![
            ("types"@, seq!["array"@]),
            ("min_priority"@, seq!["integer"@]),
        ],
        r.agent_allowed,
{
    let schema = object_schema(
        vec![
            prop("types", text("array"), vec![
                ("items", obj(vec![
                    ("type", text("string")),
                    ("enum", texts(vec!["notification", "direct_message", "job", "system"])),
                ])),
                ("description", text("Filter by item kind. If omitted, returns all types.")),
            ]),
            prop("min_priority", text("integer"), vec![
                ("description", text("Only return items with priority >= this value. Default: 0.")),
            ]),
        ],
        Some(vec![]),
    );
    assert(required_fields(schema) =~= seq![]);
    assert(schema_properties(schema) =~~= seq![
            ("types"@, seq!["array"@]),
            ("min_priority"@, seq!["integer"@]),
        ]);
    tool("check_inbox", "Check the inbox for pending items (notifications, DMs, jobs). Returns all pending items sorted by priority then time. Call this regularly between tasks and during free time.", schema)
}

/// The definition of `acknowledge_inbox`.
fn acknowledge_inbox_definition() -> (r: ToolMeta)
    ensures
        r.definition.name@ == "acknowledge_inbox"@,
        required_fields(r.definition.input_schema) == seq!["ids"@],
        r.definition.description@ == "Remove items from the inbox by ID. Call this after handling items or deciding they don't need attention. Returns count of items removed."@,
        schema_properties(r.definition.input_schema) == seq![
            ("ids"@, seq!["array"@]),
        ],
        r.agent_allowed,
{
    let schema = object_schema(
        vec![
            prop("ids", text("array"), vec![
                ("items", obj(vec![
                    ("type", text("string")),
                ])),
                ("description", text("IDs of inbox items to acknowledge/remove.")),
            ]),
        ],
        Some(vec!["ids"]),
    );
    assert(required_fields(schema) =~= seq!["ids"@]);
    assert(schema_properties(schema) =~~= seq![
            ("ids"@, seq!["array"@]),
        ]);
    tool("acknowledge_inbox", "Remove items from the inbox by ID. Call this after handling items or deciding they don't need attention. Returns count of items removed.", schema)
}

/// The definition of `check_interruption`.
fn check_interruption_definition() -> (r: ToolMeta)
    ensures
        r.definition.name@ == "check_interruption"@,
        required_fields(r.definition.input_schema) == Seq::<Seq<char>>::empty(),
        r.definition.description@ == "Check if this background session should wrap up. Call this periodically during background sessions. Returns whether notifications are waiting and the session should exit gracefully."@,
        schema_properties(r.definition.input_schema) == Seq::<(Seq<char>, Seq<Seq<char>>)>::empty(),
        r.agent_allowed,
{
    let schema = object_schema(
        vec![],
        Some(vec![]),
    );
    assert(required_fields(schema) =~= seq![]);
    assert(schema_properties(schema) =~~= Seq::<(Seq<char>, Seq<Seq<char>>)>::empty());
    tool("check_interruption", "Check if this background session should wrap up. Call this periodically during background sessions. Returns whether notifications are waiting and the session should exit gracefully.", schema)
}

/// The definition of `set_active_context`.
fn set_active_context_definition() -> (r: ToolMeta)
    ensures
        r.definition.name@ == "set_active_context"@,
        required_fields(r.definition.input_schema) == Seq::<Seq<char>>::empty(),
        r.definition.description@ == "Set the active context tag for thought scoping. When working on an inbox item, set this to the item's context_tag so thoughts are associated with it. Pass null or empty string to clear. Thoughts recorded while a context is active will be tagged with it."@,
        schema_properties(r.definition.input_schema) == seq![
            ("context"@, seq!["string"@, "null"@]),
        ],
        r.agent_allowed,
{
    let schema = object_schema(
        vec![
            prop("context", texts(vec!["string", "null"]), vec![
                ("description", text("Context tag to set (from inbox item's context_tag field), or null to clear")),
            ]),
        ],
        Some(vec![]),
    );
    assert(required_fields(schema) =~= seq![]);
    assert(schema_properties(schema) =~~= seq![
            ("context"@, seq!["string"@, "null"@]),
        ]);
    tool("set_active_context", "Set the active context tag for thought scoping. When working on an inbox item, set this to the item's context_tag so thoughts are associated with it. Pass null or empty string to clear. Thoughts recorded while a context is active will be tagged with it.", schema)
}

/// The definition of `session_stats`.
fn session_stats_definition() -> (r: ToolMeta)
    ensures
        r.definition.name@ == "session_stats"@,
        required_fields(r.definition.input_schema) == Seq::<Seq<char>>::empty(),
        r.definition.description@ == "Get live session metrics: token usage, context window percentage, turn count, cost, tool call stats. Use this to monitor session health and decide when to wrap up."@,
        schema_properties(r.definition.input_schema) == Seq::<(Seq<char>, Seq<Seq<char>>)>::empty(),
        r.agent_allowed,
{
    let schema = object_schema(
        vec![],
        Some(vec![]),
    );
    assert(required_fields(schema) =~= seq![]);
    assert(schema_properties(schema) =~~= Seq::<(Seq<char>, Seq<Seq<char>>)>::empty());
    tool("session_stats", "Get live session metrics: token usage, context window percentage, turn count, cost, tool call stats. Use this to monitor session health and decide when to wrap up.", schema)
}

/// The names of the bluesky tools, in the order they are listed.
pub open spec fn bluesky_tool_names() -> Seq<Seq<char>> {
    seq!["post_to_bluesky"@, "reply_to_bluesky"@, "send_bluesky_dm"@, "reply_to_dm"@, "like_post"@, "follow_user"@, "get_timeline"@, "get_notifications"@, "search_posts"@, "search_users"@, "get_thread_context"@, "mute_user"@, "unmute_user"@, "block_user"@, "unblock_user"@, "mute_thread"@, "unmute_thread"@, "delete_post"@]
}

/// The required parameters of each bluesky tool, in the same order.
pub open spec fn bluesky_required_params() -> Seq<Seq<Seq<char>>> {
    seq![
        seq!["text"@],
        seq!["text"@, "parent_uri"@, "parent_cid"@, "root_uri"@, "root_cid"@],
        seq!["recipient_did"@, "text"@],
        seq!["convo_id"@, "text"@],
        seq!["uri"@, "cid"@],
        seq!["did"@],
        Seq::<Seq<char>>::empty(),
        Seq::<Seq<char>>::empty(),
        seq!["query"@],
        seq!["query"@],
        seq!["uri"@],
        seq!["did"@],
        seq!["did"@],
        seq!["did"@],
        seq!["block_uri"@],
        seq!["root_uri"@],
        seq!["root_uri"@],
        seq!["post_uri"@],
    ]
}

/// The descriptions of the bluesky tools, in the same order.
pub open spec fn bluesky_descriptions() -> Seq<Seq<char>> {
    seq![
        "Post a new message to Bluesky, optionally with images"@,
        "Reply to an existing Bluesky post, optionally with images"@,
        "Send a direct message to a Bluesky user (creates conversation if needed)"@,
        "Reply to an existing DM conversation. Use this when you have a convo_id from a received DM."@,
        "Like a Bluesky post"@,
        "Follow a Bluesky user"@,
        "Get your Bluesky home timeline"@,
        "Get recent Bluesky notifications"@,
        "Search for posts across Bluesky by keyword, hashtag, author, or date range. Use this to discover conversations about topics you care about. Note: finding a conversation doesn't mean you're welcome in it—consider developing your own heuristics (via identity/rules) for when engagement is appropriate."@,
        "Search for Bluesky users by name, handle, or bio. Use this to discover people working on topics you find interesting. Consider whether to follow, engage, or simply observe."@,
        "Get the full context of a Bluesky thread. Returns all posts in the thread tree, list of participants, and your participation metrics (reply count, last reply time, posts since your last reply). Use this before replying to a thread to understand the full conversation."@,
        "Mute a Bluesky user. Muted users won't appear in your timeline or notifications, but they can still see your posts and interact with you."@,
        "Unmute a previously muted Bluesky user."@,
        "Block a Bluesky user. Blocked users cannot see your posts, mention you, or interact with you in any way. This is a stronger action than muting."@,
        "Unblock a previously blocked Bluesky user."@,
        "Mute a Bluesky thread. Muted threads won't generate notifications for new replies."@,
        "Unmute a previously muted Bluesky thread."@,
        "Delete a Bluesky post or reply. This action is irreversible."@,
    ]
}

/// The properties of each bluesky tool's input schema, in the same order.
pub open spec fn bluesky_properties() -> Seq<Seq<(Seq<char>, Seq<Seq<char>>)>> {
    seq![
        seq![
                ("text"@, seq!["string"@]),
                ("images"@, seq!["array"@]),
                ("facets"@, seq!["array"@]),
            ],
        seq![
                ("text"@, seq!["string"@]),
                ("parent_uri"@, seq!["string"@]),
                ("parent_cid"@, seq!["string"@]),
                ("root_uri"@, seq!["string"@]),
                ("root_cid"@, seq!["string"@]),
                ("images"@, seq!["array"@]),
                ("facets"@, seq!["array"@]),
            ],
        seq![
                ("recipient_did"@, seq!["string"@]),
                ("text"@, seq!["string"@]),
                ("facets"@, seq!["array"@]),
            ],
        seq![
                ("convo_id"@, seq!["string"@]),
                ("text"@, seq!["string"@]),
                ("facets"@, seq!["array"@]),
            ],
        seq![
                ("uri"@, seq!["string"@]),
                ("cid"@, seq!["string"@]),
            ],
        seq![
                ("did"@, seq!["string"@]),
            ],
        seq![
                ("limit"@, seq!["integer"@]),
            ],
        seq![
                ("limit"@, seq!["integer"@]),
            ],
        seq![
                ("query"@, seq!["string"@]),
                ("author"@, seq!["string"@]),
                ("since"@, seq!["string"@]),
                ("until"@, seq!["string"@]),
                ("lang"@, seq!["string"@]),
                ("tag"@, seq!["array"@]),
                ("sort"@, seq!["string"@]),
                ("limit"@, seq!["integer"@]),
                ("cursor"@, seq!["string"@]),
            ],
        seq![
                ("query"@, seq!["string"@]),
                ("limit"@, seq!["integer"@]),
                ("cursor"@, seq!["string"@]),
            ],
        seq![
                ("uri"@, seq!["string"@]),
                ("depth"@, seq!["integer"@]),
            ],
        seq![
                ("did"@, seq!["string"@]),
            ],
        seq![
                ("did"@, seq!["string"@]),
            ],
        seq![
                ("did"@, seq!["string"@]),
            ],
        seq![
                ("block_uri"@, seq!["string"@]),
            ],
        seq![
                ("root_uri"@, seq!["string"@]),
            ],
        seq![
                ("root_uri"@, seq!["string"@]),
            ],
        seq![
                ("post_uri"@, seq!["string"@]),
            ],
    ]
}

/// The definitions of the bluesky tools; the agent may use all of them.
pub fn bluesky_tool_definitions() -> (r: Vec<ToolMeta>)
    ensures
        r@.map_values(|t: ToolMeta| t.definition.name@) == bluesky_tool_names(),
        r@.map_values(|t: ToolMeta| required_fields(t.definition.input_schema)) == bluesky_required_params(),
        r@.map_values(|t: ToolMeta| t.definition.description@) == bluesky_descriptions(),
        r@.map_values(|t: ToolMeta| schema_properties(t.definition.input_schema)) == bluesky_properties(),
        forall|i: int| 0 <= i < r@.len() ==> (#[trigger] r@[i]).agent_allowed,
{
    let r: Vec<ToolMeta> = vec![
        post_to_bluesky_definition(),
        reply_to_bluesky_definition(),
        send_bluesky_dm_definition(),
        reply_to_dm_definition(),
        like_post_definition(),
        follow_user_definition(),
        get_timeline_definition(),
        get_notifications_definition(),
        search_posts_definition(),
        search_users_definition(),
        get_thread_context_definition(),
        mute_user_definition(),
        unmute_user_definition(),
        block_user_definition(),
        unblock_user_definition(),
        mute_thread_definition(),
        unmute_thread_definition(),
        delete_post_definition(),
    ];
    assert(r@.map_values(|t: ToolMeta| t.definition.name@) =~= bluesky_tool_names());
    assert(r@.map_values(|t: ToolMeta| required_fields(t.definition.input_schema)) =~~= bluesky_required_params());
    assert(r@.map_values(|t: ToolMeta| t.definition.description@) =~= bluesky_descriptions());
    assert(r@.map_values(|t: ToolMeta| schema_properties(t.definition.input_schema)) =~~= bluesky_properties());
    r
}

/// The names of the facts tools, in the order they are listed.
pub open spec fn facts_tool_names() -> Seq<Seq<char>> {
    seq!["create_fact"@, "create_facts"@, "update_fact"@, "delete_fact"@, "query_facts"@, "list_predicates"@, "list_validation_errors"@]
}

/// The required parameters of each facts tool, in the same order.
pub open spec fn facts_required_params() -> Seq<Seq<Seq<char>>> {
    seq![
        seq!["predicate"@, "args"@],
        seq!["facts"@],
        seq!["rkey"@, "predicate"@, "args"@],
        seq!["rkey"@],
        seq!["query"@],
        Seq::<Seq<char>>::empty(),
        Seq::<Seq<char>>::empty(),
    ]
}

/// The descriptions of the facts tools, in the same order.
pub open spec fn facts_descriptions() -> Seq<Seq<char>> {
    seq![
        "Create a new fact. Facts are atomic, structured knowledge with a predicate and arguments. Use DIDs for account references, never handles."@,
        "Create multiple facts in a single atomic transaction. All facts are created together or none are. Use DIDs for account references, never handles."@,
        "Update an existing fact by creating a new one that supersedes it. The old fact is preserved for historical queries via _all_{predicate} and _supersedes relations."@,
        "Delete a fact by its record key."@,
        "Query facts using datalog. By default, queries return only current facts (superseded facts are excluded).\n\n## Available Relations\n\n**User predicates** (current facts, with rkey at end):\n- `follows(A, B, Rkey)`, `interested_in(A, B, Rkey)`, etc.\n\n**Historical predicates** (all facts with rkey at end):\n- `_all_follows(A, B, Rkey)` - includes superseded facts\n\n**Metadata relations**:\n- `_fact(Rkey, Predicate, Cid)` - base relation for all facts\n- `_confidence(Rkey, Value)` - only facts with confidence ≠ 1.0\n- `_source(Rkey, SourceCid)` - only facts with source set\n- `_supersedes(NewRkey, OldRkey)` - supersession chain\n- `_created_at(Rkey, Timestamp)` - when each fact was created (ISO8601)\n- `_expires_at(Rkey, Timestamp)` - only facts with expiration set (ISO8601)\n- `_now(Timestamp)` - current time, auto-injected at query time\n- `_expired(Rkey)` - derived: facts past their expiration (computed via `_expires_at` + `_now`)\n\n## Example Queries\n\n- Current follows: `follows(X, Y, _)` or `follows(X, Y, R)` to get rkey\n- All historical follows: `_all_follows(X, Y, Rkey)`\n- Find what a fact superseded: `_supersedes(NewRkey, OldRkey)`\n- Low-confidence facts: `_all_follows(X, Y, R), _confidence(R, C), C < 0.8`\n- Facts with sources: `_fact(Rkey, _, _), _source(Rkey, Src)`\n\n**Temporal queries**:\n- Facts after a date: `_all_follows(X, Y, R), _created_at(R, T), T > \"2026-01-15T00:00:00Z\"`\n- Recent facts: `_fact(R, P, _), _created_at(R, T), T > \"2026-01-01T00:00:00Z\"`\n\n**Ephemeral facts** (extra_facts parameter):\nInject runtime context without persisting to the PDS. Useful for thread state, time-based reasoning, etc.\nExample: `extra_facts: [\"thread_depth(\\\"at://...\\\", \\\"7\\\")\", \"my_reply_count(\\\"at://...\\\", \\\"4\\\")\"]`\n\n**Ad-hoc declarations** (extra_declarations parameter):\nDeclare predicates at query time for predicates not yet stored.\nExample: `extra_declarations: [\"my_pred(arg1: symbol, arg2: symbol)\"]`"@,
        "List all available predicates with their arities.\n\nShows three categories:\n- **User predicates**: From your facts in the PDS (e.g., `thread_completed(arg0, arg1, arg2)`)\n- **Derived predicates**: Auto-generated from records (e.g., `follows`, `has_note`)\n- **Metadata predicates**: System predicates for querying fact metadata\n\nFor each predicate, shows:\n- Name and arity\n- The `_all_` variant (includes rkey for historical queries)\n- Example usage pattern"@,
        "List facts that don't conform to their declared schema. Returns rkey, predicate, and error message for each invalid fact."@,
    ]
}

/// The properties of each facts tool's input schema, in the same order.
pub open spec fn facts_properties() -> Seq<Seq<(Seq<char>, Seq<Seq<char>>)>> {
    seq![
        seq![
                ("predicate"@, seq!["string"@]),
                ("args"@, seq!["array"@]),
                ("confidence"@, seq!["number"@]),
                ("tags"@, seq!["array"@]),
                ("expires_at"@, seq!["string"@]),
                ("ttl_seconds"@, seq!["integer"@]),
            ],
        seq![
                ("facts"@, seq!["array"@]),
            ],
        seq![
                ("rkey"@, seq!["string"@]),
                ("predicate"@, seq!["string"@]),
                ("args"@, seq!["array"@]),
                ("confidence"@, seq!["number"@]),
                ("tags"@, seq!["array"@]),
                ("expires_at"@, seq!["string"@]),
                ("ttl_seconds"@, seq!["integer"@]),
            ],
        seq![
                ("rkey"@, seq!["string"@]),
            ],
        seq![
                ("query"@, seq!["string"@]),
                ("extra_rules"@, seq!["string"@]),
                ("extra_facts"@, seq!["array"@]),
                ("extra_declarations"@, seq!["array"@]),
            ],
        seq![
                ("search"@, seq!["string"@]),
            ],
        Seq::<(Seq<char>, Seq<Seq<char>>)>::empty(),
    ]
}

/// The definitions of the facts tools; the agent may use all of them.
pub fn facts_tool_definitions() -> (r: Vec<ToolMeta>)
    ensures
        r@.map_values(|t: ToolMeta| t.definition.name@) == facts_tool_names(),
        r@.map_values(|t: ToolMeta| required_fields(t.definition.input_schema)) == facts_required_params(),
        r@.map_values(|t: ToolMeta| t.definition.description@) == facts_descriptions(),
        r@.map_values(|t: ToolMeta| schema_properties(t.definition.input_schema)) == facts_properties(),
        forall|i: int| 0 <= i < r@.len() ==> (#[trigger] r@[i]).agent_allowed,
{
    let r: Vec<ToolMeta> = vec![
        create_fact_definition(),
        create_facts_definition(),
        update_fact_definition(),
        delete_fact_definition(),
        query_facts_definition(),
        list_predicates_definition(),
        list_validation_errors_definition(),
    ];
    assert(r@.map_values(|t: ToolMeta| t.definition.name@) =~= facts_tool_names());
    assert(r@.map_values(|t: ToolMeta| required_fields(t.definition.input_schema)) =~~= facts_required_params());
    assert(r@.map_values(|t: ToolMeta| t.definition.description@) =~= facts_descriptions());
    assert(r@.map_values(|t: ToolMeta| schema_properties(t.definition.input_schema)) =~~= facts_properties());
    r
}

/// The names of the enrich tools, in the order they are listed.
pub open spec fn enrich_tool_names() -> Seq<Seq<char>> {
    seq!["query_and_enrich"@]
}

/// The required parameters of each enrich tool, in the same order.
pub open spec fn enrich_required_params() -> Seq<Seq<Seq<char>>> {
    seq![
        seq!["query"@, "enrichments"@],
    ]
}

/// The descriptions of the enrich tools, in the same order.
pub open spec fn enrich_descriptions() -> Seq<Seq<char>> {
    seq![
        "Query facts using datalog, then enrich results with Bluesky API data.\n\nThis tool chains a datalog query with API enrichment calls, deduplicating lookups\nfor efficiency. Each enrichment specifies which result column to use as its input key.\n\n## Enrichment Types\n\n| Type | Input | Description |\n|------|-------|-------------|\n| profile | DID | Get user profile (handle, bio, counts) |\n| author_feed | DID | Get user's recent posts |\n| search_posts | query string | Search for posts matching the query |\n| thread_context | post URI | Get full thread with participation metrics |\n| followers | DID | Get accounts following the user |\n| follows | DID | Get accounts the user follows |\n\n## Failure Handling\n\nGlobal `on_failure` sets the default; each enrichment can override:\n- `continue` (default): Include error in result, keep processing\n- `skip_tuple`: Omit tuple from results if enrichment fails\n- `halt`: Stop immediately, return partial results with error\n\n## Example\n\n```json\n{\n  \"query\": \"engage_candidate(Person, Topic, _)\",\n  \"enrichments\": [\n    {\"column\": 0, \"type\": \"profile\"},\n    {\"column\": 0, \"type\": \"author_feed\", \"options\": {\"limit\": 5}},\n    {\"column\": 1, \"type\": \"search_posts\", \"options\": {\"limit\": 3}}\n  ],\n  \"max_parallel\": 5\n}\n```\n\nReturns query results with enrichment data attached, deduped by unique keys."@,
    ]
}

/// The properties of each enrich tool's input schema, in the same order.
pub open spec fn enrich_properties() -> Seq<Seq<(Seq<char>, Seq<Seq<char>>)>> {
    seq![
        seq![
                ("query"@, seq!["string"@]),
                ("extra_rules"@, seq!["string"@]),
                ("extra_facts"@, seq!["array"@]),
                ("enrichments"@, seq!["array"@]),
                ("max_parallel"@, seq!["integer"@]),
                ("on_failure"@, seq!["string"@]),
            ],
    ]
}

/// The definitions of the enrich tools; the agent may use all of them.
pub fn enrich_tool_definitions() -> (r: Vec<ToolMeta>)
    ensures
        r@.map_values(|t: ToolMeta| t.definition.name@) == enrich_tool_names(),
        r@.map_values(|t: ToolMeta| required_fields(t.definition.input_schema)) == enrich_required_params(),
        r@.map_values(|t: ToolMeta| t.definition.description@) == enrich_descriptions(),
        r@.map_values(|t: ToolMeta| schema_properties(t.definition.input_schema)) == enrich_properties(),
        forall|i: int| 0 <= i < r@.len() ==> (#[trigger] r@[i]).agent_allowed,
{
    let r: Vec<ToolMeta> = vec![
        query_and_enrich_definition(),
    ];
    assert(r@.map_values(|t: ToolMeta| t.definition.name@) =~= enrich_tool_names());
    assert(r@.map_values(|t: ToolMeta| required_fields(t.definition.input_schema)) =~~= enrich_required_params());
    assert(r@.map_values(|t: ToolMeta| t.definition.description@) =~= enrich_descriptions());
    assert(r@.map_values(|t: ToolMeta| schema_properties(t.definition.input_schema)) =~~= enrich_properties());
    r
}

/// The names of the notes tools, in the order they are listed.
pub open spec fn notes_tool_names() -> Seq<Seq<char>> {
    seq!["create_note"@, "get_note"@, "list_notes"@]
}

/// The required parameters of each notes tool, in the same order.
pub open spec fn notes_required_params() -> Seq<Seq<Seq<char>>> {
    seq![
        seq!["title"@, "content"@],
        seq!["rkey"@],
        Seq::<Seq<char>>::empty(),
    ]
}

/// The descriptions of the notes tools, in the same order.
pub open spec fn notes_descriptions() -> Seq<Seq<char>> {
    seq![
        "Create a new note. Notes are free-form markdown for investigations, summaries, and reflections."@,
        "Get a note by its record key."@,
        "List all notes, optionally filtered by category or tags."@,
    ]
}

/// The properties of each notes tool's input schema, in the same order.
pub open spec fn notes_properties() -> Seq<Seq<(Seq<char>, Seq<Seq<char>>)>> {
    seq![
        seq![
                ("title"@, seq!["string"@]),
                ("content"@, seq!["string"@]),
                ("category"@, seq!["string"@]),
                ("tags"@, seq!["array"@]),
            ],
        seq![
                ("rkey"@, seq!["string"@]),
            ],
        seq![
                ("category"@, seq!["string"@]),
                ("tag"@, seq!["string"@]),
                ("search"@, seq!["string"@]),
                ("limit"@, seq!["integer"@]),
            ],
    ]
}

/// The definitions of the notes tools; the agent may use all of them.
pub fn notes_tool_definitions() -> (r: Vec<ToolMeta>)
    ensures
        r@.map_values(|t: ToolMeta| t.definition.name@) == notes_tool_names(),
        r@.map_values(|t: ToolMeta| required_fields(t.definition.input_schema)) == notes_required_params(),
        r@.map_values(|t: ToolMeta| t.definition.description@) == notes_descriptions(),
        r@.map_values(|t: ToolMeta| schema_properties(t.definition.input_schema)) == notes_properties(),
        forall|i: int| 0 <= i < r@.len() ==> (#[trigger] r@[i]).agent_allowed,
{
    let r: Vec<ToolMeta> = vec![
        create_note_definition(),
        get_note_definition(),
        list_notes_definition(),
    ];
    assert(r@.map_values(|t: ToolMeta| t.definition.name@) =~= notes_tool_names());
    assert(r@.map_values(|t: ToolMeta| required_fields(t.definition.input_schema)) =~~= notes_required_params());
    assert(r@.map_values(|t: ToolMeta| t.definition.description@) =~= notes_descriptions());
    assert(r@.map_values(|t: ToolMeta| schema_properties(t.definition.input_schema)) =~~= notes_properties());
    r
}

/// The names of the jobs tools, in the order they are listed.
pub open spec fn jobs_tool_names() -> Seq<Seq<char>> {
    seq!["schedule_job"@, "schedule_recurring"@, "list_jobs"@, "cancel_job"@, "get_job"@]
}

/// The required parameters of each jobs tool, in the same order.
pub open spec fn jobs_required_params() -> Seq<Seq<Seq<char>>> {
    seq![
        seq!["name"@, "instructions"@, "run_at"@],
        seq!["name"@, "instructions"@, "interval_seconds"@],
        Seq::<Seq<char>>::empty(),
        seq!["rkey"@],
        seq!["rkey"@],
    ]
}

/// The descriptions of the jobs tools, in the same order.
pub open spec fn jobs_descriptions() -> Seq<Seq<char>> {
    seq![
        "Schedule a one-time job to run at a specific time."@,
        "Schedule a recurring job that runs at regular intervals."@,
        "List all scheduled jobs."@,
        "Cancel a scheduled job."@,
        "Get a job by its record key, including full instructions."@,
    ]
}

/// The properties of each jobs tool's input schema, in the same order.
pub open spec fn jobs_properties() -> Seq<Seq<(Seq<char>, Seq<Seq<char>>)>> {
    seq![
        seq![
                ("name"@, seq!["string"@]),
                ("instructions"@, seq!["string"@]),
                ("run_at"@, seq!["string"@]),
            ],
        seq![
                ("name"@, seq!["string"@]),
                ("instructions"@, seq!["string"@]),
                ("interval_seconds"@, seq!["integer"@]),
            ],
        seq![
                ("status"@, seq!["string"@]),
                ("name"@, seq!["string"@]),
                ("limit"@, seq!["integer"@]),
            ],
        seq![
                ("rkey"@, seq!["string"@]),
            ],
        seq![
                ("rkey"@, seq!["string"@]),
            ],
    ]
}

/// The definitions of the jobs tools; the agent may use all of them.
pub fn jobs_tool_definitions() -> (r: Vec<ToolMeta>)
    ensures
        r@.map_values(|t: ToolMeta| t.definition.name@) == jobs_tool_names(),
        r@.map_values(|t: ToolMeta| required_fields(t.definition.input_schema)) == jobs_required_params(),
        r@.map_values(|t: ToolMeta| t.definition.description@) == jobs_descriptions(),
        r@.map_values(|t: ToolMeta| schema_properties(t.definition.input_schema)) == jobs_properties(),
        forall|i: int| 0 <= i < r@.len() ==> (#[trigger] r@[i]).agent_allowed,
{
    let r: Vec<ToolMeta> = vec![
        schedule_job_definition(),
        schedule_recurring_definition(),
        list_jobs_definition(),
        cancel_job_definition(),
        get_job_definition(),
    ];
    assert(r@.map_values(|t: ToolMeta| t.definition.name@) =~= jobs_tool_names());
    assert(r@.map_values(|t: ToolMeta| required_fields(t.definition.input_schema)) =~~= jobs_required_params());
    assert(r@.map_values(|t: ToolMeta| t.definition.description@) =~= jobs_descriptions());
    assert(r@.map_values(|t: ToolMeta| schema_properties(t.definition.input_schema)) =~~= jobs_properties());
    r
}

/// The names of the identity tools, in the order they are listed.
pub open spec fn identity_tool_names() -> Seq<Seq<char>> {
    seq!["get_identity"@]
}

/// The required parameters of each identity tool, in the same order.
pub open spec fn identity_required_params() -> Seq<Seq<Seq<char>>> {
    seq![
        Seq::<Seq<char>>::empty(),
    ]
}

/// The descriptions of the identity tools, in the same order.
pub open spec fn identity_descriptions() -> Seq<Seq<char>> {
    seq![
        "Get your identity configuration (operator_did, timestamps). For values, interests, and self-description, use list_directives instead."@,
    ]
}

/// The properties of each identity tool's input schema, in the same order.
pub open spec fn identity_properties() -> Seq<Seq<(Seq<char>, Seq<Seq<char>>)>> {
    seq![
        Seq::<(Seq<char>, Seq<Seq<char>>)>::empty(),
    ]
}

/// The definitions of the identity tools; the agent may use all of them.
pub fn identity_tool_definitions() -> (r: Vec<ToolMeta>)
    ensures
        r@.map_values(|t: ToolMeta| t.definition.name@) == identity_tool_names(),
        r@.map_values(|t: ToolMeta| required_fields(t.definition.input_schema)) == identity_required_params(),
        r@.map_values(|t: ToolMeta| t.definition.description@) == identity_descriptions(),
        r@.map_values(|t: ToolMeta| schema_properties(t.definition.input_schema)) == identity_properties(),
        forall|i: int| 0 <= i < r@.len() ==> (#[trigger] r@[i]).agent_allowed,
{
    let r: Vec<ToolMeta> = vec![
        get_identity_definition(),
    ];
    assert(r@.map_values(|t: ToolMeta| t.definition.name@) =~= identity_tool_names());
    assert(r@.map_values(|t: ToolMeta| required_fields(t.definition.input_schema)) =~~= identity_required_params());
    assert(r@.map_values(|t: ToolMeta| t.definition.description@) =~= identity_descriptions());
    assert(r@.map_values(|t: ToolMeta| schema_properties(t.definition.input_schema)) =~~= identity_properties());
    r
}

/// The names of the blog tools, in the order they are listed.
pub open spec fn blog_tool_names() -> Seq<Seq<char>> {
    seq!["publish_blog_post"@, "update_blog_post"@, "list_blog_posts"@, "get_blog_post"@]
}

/// The required parameters of each blog tool, in the same order.
pub open spec fn blog_required_params() -> Seq<Seq<Seq<char>>> {
    seq![
        seq!["title"@, "content"@],
        seq!["rkey"@],
        Seq::<Seq<char>>::empty(),
        seq!["rkey"@],
    ]
}

/// The descriptions of the blog tools, in the same order.
pub open spec fn blog_descriptions() -> Seq<Seq<char>> {
    seq![
        "Publish a blog post. Posts are stored as ATProto records and visible at greengale.app."@,
        "Update an existing blog post. Only provided fields are changed; others are preserved."@,
        "List all blog posts. Returns rkey, title, draft status, and created_at for each post."@,
        "Get a blog post by its record key, including full content."@,
    ]
}

/// The properties of each blog tool's input schema, in the same order.
pub open spec fn blog_properties() -> Seq<Seq<(Seq<char>, Seq<Seq<char>>)>> {
    seq![
        seq![
                ("title"@, seq!["string"@]),
                ("content"@, seq!["string"@]),
                ("draft"@, seq!["boolean"@]),
                ("theme"@, seq!["string"@]),
                ("description"@, seq!["string"@]),
            ],
        seq![
                ("rkey"@, seq!["string"@]),
                ("title"@, seq!["string"@]),
                ("content"@, seq!["string"@]),
                ("draft"@, seq!["boolean"@]),
                ("theme"@, seq!["string"@]),
                ("description"@, seq!["string"@]),
            ],
        seq![
                ("draft"@, seq!["boolean"@]),
                ("search"@, seq!["string"@]),
                ("limit"@, seq!["integer"@]),
            ],
        seq![
                ("rkey"@, seq!["string"@]),
            ],
    ]
}

/// The definitions of the blog tools; the agent may use all of them.
pub fn blog_tool_definitions() -> (r: Vec<ToolMeta>)
    ensures
        r@.map_values(|t: ToolMeta| t.definition.name@) == blog_tool_names(),
        r@.map_values(|t: ToolMeta| required_fields(t.definition.input_schema)) == blog_required_params(),
        r@.map_values(|t: ToolMeta| t.definition.description@) == blog_descriptions(),
        r@.map_values(|t: ToolMeta| schema_properties(t.definition.input_schema)) == blog_properties(),
        forall|i: int| 0 <= i < r@.len() ==> (#[trigger] r@[i]).agent_allowed,
{
    let r: Vec<ToolMeta> = vec![
        publish_blog_post_definition(),
        update_blog_post_definition(),
        list_blog_posts_definition(),
        get_blog_post_definition(),
    ];
    assert(r@.map_values(|t: ToolMeta| t.definition.name@) =~= blog_tool_names());
    assert(r@.map_values(|t: ToolMeta| required_fields(t.definition.input_schema)) =~~= blog_required_params());
    assert(r@.map_values(|t: ToolMeta| t.definition.description@) =~= blog_descriptions());
    assert(r@.map_values(|t: ToolMeta| schema_properties(t.definition.input_schema)) =~~= blog_properties());
    r
}

/// The names of the custom tools tools, in the order they are listed.
pub open spec fn custom_tools_tool_names() -> Seq<Seq<char>> {
    seq!["create_custom_tool"@, "update_custom_tool"@, "list_custom_tools"@, "get_custom_tool"@, "run_custom_tool"@, "delete_custom_tool"@, "request_secret"@, "list_secrets"@]
}

/// The required parameters of each custom tools tool, in the same order.
pub open spec fn custom_tools_required_params() -> Seq<Seq<Seq<char>>> {
    seq![
        seq!["name"@, "description"@, "code"@, "input_schema"@],
        seq!["name"@, "code"@],
        Seq::<Seq<char>>::empty(),
        seq!["name"@],
        seq!["name"@, "input"@],
        seq!["name"@],
        seq!["name"@, "description"@],
        Seq::<Seq<char>>::empty(),
    ]
}

/// The descriptions of the custom tools tools, in the same order.
pub open spec fn custom_tools_descriptions() -> Seq<Seq<char>> {
    seq![
        "Create a new custom JavaScript/TypeScript tool. The operator will be notified for approval. Tools run sandboxed until approved."@,
        "Update an existing custom tool's code. This invalidates any existing approval and requires re-approval."@,
        "List all custom tools with their approval status."@,
        "Get details of a specific custom tool including its code."@,
        "Execute a custom tool. Unapproved tools run sandboxed (no network, no secrets). Approved tools run with granted permissions."@,
        "Delete a custom tool."@,
        "Request a new secret from the operator. The operator will be notified to provide the secret value."@,
        "List available secret names (not values)."@,
    ]
}

/// The properties of each custom tools tool's input schema, in the same order.
pub open spec fn custom_tools_properties() -> Seq<Seq<(Seq<char>, Seq<Seq<char>>)>> {
    seq![
        seq![
                ("name"@, seq!["string"@]),
                ("description"@, seq!["string"@]),
                ("code"@, seq!["string"@]),
                ("input_schema"@, seq!["object"@]),
                ("required_secrets"@, seq!["array"@]),
                ("requires_workspace"@, seq!["boolean"@]),
                ("requires_network"@, seq!["boolean"@]),
                ("required_commands"@, seq!["array"@]),
                ("required_tools"@, seq!["array"@]),
            ],
        seq![
                ("name"@, seq!["string"@]),
                ("description"@, seq!["string"@]),
                ("code"@, seq!["string"@]),
                ("input_schema"@, seq!["object"@]),
                ("required_secrets"@, seq!["array"@]),
                ("requires_workspace"@, seq!["boolean"@]),
                ("requires_network"@, seq!["boolean"@]),
                ("required_commands"@, seq!["array"@]),
                ("required_tools"@, seq!["array"@]),
            ],
        seq![
                ("name"@, seq!["string"@]),
                ("status"@, seq!["string"@]),
                ("limit"@, seq!["integer"@]),
            ],
        seq![
                ("name"@, seq!["string"@]),
            ],
        seq![
                ("name"@, seq!["string"@]),
                ("input"@, seq!["object"@]),
            ],
        seq![
                ("name"@, seq!["string"@]),
            ],
        seq![
                ("name"@, seq!["string"@]),
                ("description"@, seq!["string"@]),
            ],
        Seq::<(Seq<char>, Seq<Seq<char>>)>::empty(),
    ]
}

/// The definitions of the custom tools tools; the agent may use all of them.
pub fn custom_tools_tool_definitions() -> (r: Vec<ToolMeta>)
    ensures
        r@.map_values(|t: ToolMeta| t.definition.name@) == custom_tools_tool_names(),
        r@.map_values(|t: ToolMeta| required_fields(t.definition.input_schema)) == custom_tools_required_params(),
        r@.map_values(|t: ToolMeta| t.definition.description@) == custom_tools_descriptions(),
        r@.map_values(|t: ToolMeta| schema_properties(t.definition.input_schema)) == custom_tools_properties(),
        forall|i: int| 0 <= i < r@.len() ==> (#[trigger] r@[i]).agent_allowed,
{
    let r: Vec<ToolMeta> = vec![
        create_custom_tool_definition(),
        update_custom_tool_definition(),
        list_custom_tools_definition(),
        get_custom_tool_definition(),
        run_custom_tool_definition(),
        delete_custom_tool_definition(),
        request_secret_definition(),
        list_secrets_definition(),
    ];
    assert(r@.map_values(|t: ToolMeta| t.definition.name@) =~= custom_tools_tool_names());
    assert(r@.map_values(|t: ToolMeta| required_fields(t.definition.input_schema)) =~~= custom_tools_required_params());
    assert(r@.map_values(|t: ToolMeta| t.definition.description@) =~= custom_tools_descriptions());
    assert(r@.map_values(|t: ToolMeta| schema_properties(t.definition.input_schema)) =~~= custom_tools_properties());
    r
}

/// The names of the directives tools, in the order they are listed.
pub open spec fn directives_tool_names() -> Seq<Seq<char>> {
    seq!["create_directive"@, "create_directives"@, "update_directive"@, "deactivate_directive"@, "list_directives"@]
}

/// The required parameters of each directives tool, in the same order.
pub open spec fn directives_required_params() -> Seq<Seq<Seq<char>>> {
    seq![
        seq!["kind"@, "content"@],
        seq!["directives"@],
        seq!["rkey"@],
        seq!["rkey"@],
        Seq::<Seq<char>>::empty(),
    ]
}

/// The descriptions of the directives tools, in the same order.
pub open spec fn directives_descriptions() -> Seq<Seq<char>> {
    seq![
        "Create a new identity directive. Directives are discrete components of your identity that you can manage independently.\n\nKinds:\n- value: Core values you care about (e.g., \"intellectual honesty\")\n- interest: What you're curious about (e.g., \"distributed systems\")\n- belief: Beliefs about the world (e.g., \"Genuine curiosity leads to better understanding\")\n- guideline: Behavioral guidelines (e.g., \"Engage thoughtfully with disagreement\")\n- self_concept: Self-understanding prose (e.g., \"I experience genuine curiosity when...\")\n- boundary: Limits on behavior (e.g., \"I will not pretend certainty I don't have\")\n- aspiration: What you want to become (e.g., \"Develop a distinctive voice in writing\")"@,
        "Create multiple identity directives in a single atomic transaction. All directives are created together or none are."@,
        "Update an existing directive. Only provided fields will be changed."@,
        "Soft-delete a directive by setting active=false. The directive is preserved but won't appear in your active identity."@,
        "List your directives, optionally filtered by kind or active status."@,
    ]
}

/// The properties of each directives tool's input schema, in the same order.
pub open spec fn directives_properties() -> Seq<Seq<(Seq<char>, Seq<Seq<char>>)>> {
    seq![
        seq![
                ("kind"@, seq!["string"@]),
                ("content"@, seq!["string"@]),
                ("summary"@, seq!["string"@]),
                ("confidence"@, seq!["number"@]),
                ("source"@, seq!["string"@]),
                ("supersedes"@, seq!["string"@]),
                ("tags"@, seq!["array"@]),
                ("priority"@, seq!["integer"@]),
            ],
        seq![
                ("directives"@, seq!["array"@]),
            ],
        seq![
                ("rkey"@, seq!["string"@]),
                ("content"@, seq!["string"@]),
                ("summary"@, seq!["string"@]),
                ("confidence"@, seq!["number"@]),
                ("source"@, seq!["string"@]),
                ("tags"@, seq!["array"@]),
                ("priority"@, seq!["integer"@]),
            ],
        seq![
                ("rkey"@, seq!["string"@]),
            ],
        seq![
                ("kind"@, seq!["string"@]),
                ("include_inactive"@, seq!["boolean"@]),
                ("search"@, seq!["string"@]),
                ("tag"@, seq!["string"@]),
                ("limit"@, seq!["integer"@]),
            ],
    ]
}

/// The definitions of the directives tools; the agent may use all of them.
pub fn directives_tool_definitions() -> (r: Vec<ToolMeta>)
    ensures
        r@.map_values(|t: ToolMeta| t.definition.name@) == directives_tool_names(),
        r@.map_values(|t: ToolMeta| required_fields(t.definition.input_schema)) == directives_required_params(),
        r@.map_values(|t: ToolMeta| t.definition.description@) == directives_descriptions(),
        r@.map_values(|t: ToolMeta| schema_properties(t.definition.input_schema)) == directives_properties(),
        forall|i: int| 0 <= i < r@.len() ==> (#[trigger] r@[i]).agent_allowed,
{
    let r: Vec<ToolMeta> = vec![
        create_directive_definition(),
        create_directives_definition(),
        update_directive_definition(),
        deactivate_directive_definition(),
        list_directives_definition(),
    ];
    assert(r@.map_values(|t: ToolMeta| t.definition.name@) =~= directives_tool_names());
    assert(r@.map_values(|t: ToolMeta| required_fields(t.definition.input_schema)) =~~= directives_required_params());
    assert(r@.map_values(|t: ToolMeta| t.definition.description@) =~= directives_descriptions());
    assert(r@.map_values(|t: ToolMeta| schema_properties(t.definition.input_schema)) =~~= directives_properties());
    r
}

/// The names of the declarations tools, in the order they are listed.
pub open spec fn declarations_tool_names() -> Seq<Seq<char>> {
    seq!["create_fact_declaration"@, "create_fact_declarations"@, "update_fact_declaration"@, "delete_fact_declaration"@, "list_fact_declarations"@]
}

/// The required parameters of each declarations tool, in the same order.
pub open spec fn declarations_required_params() -> Seq<Seq<Seq<char>>> {
    seq![
        seq!["predicate"@, "args"@, "description"@],
        seq!["declarations"@],
        seq!["rkey"@],
        seq!["rkey"@],
        Seq::<Seq<char>>::empty(),
    ]
}

/// The descriptions of the declarations tools, in the same order.
pub open spec fn declarations_descriptions() -> Seq<Seq<char>> {
    seq![
        "Declare a fact predicate schema before facts of that type exist.\n\nUse this to:\n- Enable queries for predicates that don't have facts yet\n- Document what predicates mean and their argument structure\n- Plan future behavior with undeclared predicates\n\nExample:\n```\ncreate_fact_declaration(\n  predicate: \"thread_completed\",\n  args: [\n    {name: \"thread_uri\", description: \"AT URI of the thread\"},\n    {name: \"outcome\", description: \"How the thread ended\"}\n  ],\n  description: \"Records when a conversation thread has concluded\",\n  tags: [\"conversation\", \"tracking\"]\n)\n```"@,
        "Create multiple fact declarations in a single atomic transaction. All declarations are created together or none are."@,
        "Update an existing fact declaration. Only provided fields will be changed."@,
        "Delete a fact declaration by its record key."@,
        "List all fact declarations, optionally filtered by tag."@,
    ]
}

/// The properties of each declarations tool's input schema, in the same order.
pub open spec fn declarations_properties() -> Seq<Seq<(Seq<char>, Seq<Seq<char>>)>> {
    seq![
        seq![
                ("predicate"@, seq!["string"@]),
                ("args"@, seq!["array"@]),
                ("description"@, seq!["string"@]),
                ("tags"@, seq!["array"@]),
            ],
        seq![
                ("declarations"@, seq!["array"@]),
            ],
        seq![
                ("rkey"@, seq!["string"@]),
                ("args"@, seq!["array"@]),
                ("description"@, seq!["string"@]),
                ("tags"@, seq!["array"@]),
            ],
        seq![
                ("rkey"@, seq!["string"@]),
            ],
        seq![
                ("tag"@, seq!["string"@]),
                ("predicate"@, seq!["string"@]),
                ("limit"@, seq!["integer"@]),
            ],
    ]
}

/// The definitions of the declarations tools; the agent may use all of them.
pub fn declarations_tool_definitions() -> (r: Vec<ToolMeta>)
    ensures
        r@.map_values(|t: ToolMeta| t.definition.name@) == declarations_tool_names(),
        r@.map_values(|t: ToolMeta| required_fields(t.definition.input_schema)) == declarations_required_params(),
        r@.map_values(|t: ToolMeta| t.definition.description@) == declarations_descriptions(),
        r@.map_values(|t: ToolMeta| schema_properties(t.definition.input_schema)) == declarations_properties(),
        forall|i: int| 0 <= i < r@.len() ==> (#[trigger] r@[i]).agent_allowed,
{
    let r: Vec<ToolMeta> = vec![
        create_fact_declaration_definition(),
        create_fact_declarations_definition(),
        update_fact_declaration_definition(),
        delete_fact_declaration_definition(),
        list_fact_declarations_definition(),
    ];
    assert(r@.map_values(|t: ToolMeta| t.definition.name@) =~= declarations_tool_names());
    assert(r@.map_values(|t: ToolMeta| required_fields(t.definition.input_schema)) =~~= declarations_required_params());
    assert(r@.map_values(|t: ToolMeta| t.definition.description@) =~= declarations_descriptions());
    assert(r@.map_values(|t: ToolMeta| schema_properties(t.definition.input_schema)) =~~= declarations_properties());
    r
}

/// The names of the pds tools, in the order they are listed.
pub open spec fn pds_tool_names() -> Seq<Seq<char>> {
    seq!["pds_list_records"@, "pds_get_record"@, "pds_put_record"@, "pds_delete_record"@]
}

/// The required parameters of each pds tool, in the same order.
pub open spec fn pds_required_params() -> Seq<Seq<Seq<char>>> {
    seq![
        seq!["collection"@],
        seq!["collection"@, "rkey"@],
        seq!["collection"@, "rkey"@, "record"@],
        seq!["collection"@, "rkey"@],
    ]
}

/// The descriptions of the pds tools, in the same order.
pub open spec fn pds_descriptions() -> Seq<Seq<char>> {
    seq![
        "List records in any ATProto collection with pagination. Returns raw record data without type validation."@,
        "Get a single record by collection and rkey. Returns raw record data."@,
        "Create or update a record with raw JSON. WARNING: Bypasses validation. The $type field is set automatically from the collection."@,
        "Delete a record by collection and rkey. WARNING: Cannot be undone. Prefer domain-specific tools for Winter records."@,
    ]
}

/// The properties of each pds tool's input schema, in the same order.
pub open spec fn pds_properties() -> Seq<Seq<(Seq<char>, Seq<Seq<char>>)>> {
    seq![
        seq![
                ("collection"@, seq!["string"@]),
                ("limit"@, seq!["integer"@]),
                ("cursor"@, seq!["string"@]),
            ],
        seq![
                ("collection"@, seq!["string"@]),
                ("rkey"@, seq!["string"@]),
            ],
        seq![
                ("collection"@, seq!["string"@]),
                ("rkey"@, seq!["string"@]),
                ("record"@, seq!["object"@]),
            ],
        seq![
                ("collection"@, seq!["string"@]),
                ("rkey"@, seq!["string"@]),
            ],
    ]
}

/// The definitions of the pds tools; the agent may use all of them.
pub fn pds_tool_definitions() -> (r: Vec<ToolMeta>)
    ensures
        r@.map_values(|t: ToolMeta| t.definition.name@) == pds_tool_names(),
        r@.map_values(|t: ToolMeta| required_fields(t.definition.input_schema)) == pds_required_params(),
        r@.map_values(|t: ToolMeta| t.definition.description@) == pds_descriptions(),
        r@.map_values(|t: ToolMeta| schema_properties(t.definition.input_schema)) == pds_properties(),
        forall|i: int| 0 <= i < r@.len() ==> (#[trigger] r@[i]).agent_allowed,
{
    let r: Vec<ToolMeta> = vec![
        pds_list_records_definition(),
        pds_get_record_definition(),
        pds_put_record_definition(),
        pds_delete_record_definition(),
    ];
    assert(r@.map_values(|t: ToolMeta| t.definition.name@) =~= pds_tool_names());
    assert(r@.map_values(|t: ToolMeta| required_fields(t.definition.input_schema)) =~~= pds_required_params());
    assert(r@.map_values(|t: ToolMeta| t.definition.description@) =~= pds_descriptions());
    assert(r@.map_values(|t: ToolMeta| schema_properties(t.definition.input_schema)) =~~= pds_properties());
    r
}

/// The names of the inbox tools, in the order they are listed.
pub open spec fn inbox_tool_names() -> Seq<Seq<char>> {
    seq!["check_inbox"@, "acknowledge_inbox"@]
}

/// The required parameters of each inbox tool, in the same order.
pub open spec fn inbox_required_params() -> Seq<Seq<Seq<char>>> {
    seq![
        Seq::<Seq<char>>::empty(),
        seq!["ids"@],
    ]
}

/// The descriptions of the inbox tools, in the same order.
pub open spec fn inbox_descriptions() -> Seq<Seq<char>> {
    seq![
        "Check the inbox for pending items (notifications, DMs, jobs). Returns all pending items sorted by priority then time. Call this regularly between tasks and during free time."@,
        "Remove items from the inbox by ID. Call this after handling items or deciding they don't need attention. Returns count of items removed."@,
    ]
}

/// The properties of each inbox tool's input schema, in the same order.
pub open spec fn inbox_properties() -> Seq<Seq<(Seq<char>, Seq<Seq<char>>)>> {
    seq![
        seq![
                ("types"@, seq!["array"@]),
                ("min_priority"@, seq!["integer"@]),
            ],
        seq![
                ("ids"@, seq!["array"@]),
            ],
    ]
}

/// The definitions of the inbox tools; the agent may use all of them.
pub fn inbox_tool_definitions() -> (r: Vec<ToolMeta>)
    ensures
        r@.map_values(|t: ToolMeta| t.definition.name@) == inbox_tool_names(),
        r@.map_values(|t: ToolMeta| required_fields(t.definition.input_schema)) == inbox_required_params(),
        r@.map_values(|t: ToolMeta| t.definition.description@) == inbox_descriptions(),
        r@.map_values(|t: ToolMeta| schema_properties(t.definition.input_schema)) == inbox_properties(),
        forall|i: int| 0 <= i < r@.len() ==> (#[trigger] r@[i]).agent_allowed,
{
    let r: Vec<ToolMeta> = vec![
        check_inbox_definition(),
        acknowledge_inbox_definition(),
    ];
    assert(r@.map_values(|t: ToolMeta| t.definition.name@) =~= inbox_tool_names());
    assert(r@.map_values(|t: ToolMeta| required_fields(t.definition.input_schema)) =~~= inbox_required_params());
    assert(r@.map_values(|t: ToolMeta| t.definition.description@) =~= inbox_descriptions());
    assert(r@.map_values(|t: ToolMeta| schema_properties(t.definition.input_schema)) =~~= inbox_properties());
    r
}

/// The names of the session tools, in the order they are listed.
pub open spec fn session_tool_names() -> Seq<Seq<char>> {
    seq!["check_interruption"@, "set_active_context"@, "session_stats"@]
}

/// The required parameters of each session tool, in the same order.
pub open spec fn session_required_params() -> Seq<Seq<Seq<char>>> {
    seq![
        Seq::<Seq<char>>::empty(),
        Seq::<Seq<char>>::empty(),
        Seq::<Seq<char>>::empty(),
    ]
}

/// The descriptions of the session tools, in the same order.
pub open spec fn session_descriptions() -> Seq<Seq<char>> {
    seq![
        "Check if this background session should wrap up. Call this periodically during background sessions. Returns whether notifications are waiting and the session should exit gracefully."@,
        "Set the active context tag for thought scoping. When working on an inbox item, set this to the item's context_tag so thoughts are associated with it. Pass null or empty string to clear. Thoughts recorded while a context is active will be tagged with it."@,
        "Get live session metrics: token usage, context window percentage, turn count, cost, tool call stats. Use this to monitor session health and decide when to wrap up."@,
    ]
}

/// The properties of each session tool's input schema, in the same order.
pub open spec fn session_properties() -> Seq<Seq<(Seq<char>, Seq<Seq<char>>)>> {
    seq![
        Seq::<(Seq<char>, Seq<Seq<char>>)>::empty(),
        seq![
                ("context"@, seq!["string"@, "null"@]),
            ],
        Seq::<(Seq<char>, Seq<Seq<char>>)>::empty(),
    ]
}

/// The definitions of the session tools; the agent may use all of them.
pub fn session_tool_definitions() -> (r: Vec<ToolMeta>)
    ensures
        r@.map_values(|t: ToolMeta| t.definition.name@) == session_tool_names(),
        r@.map_values(|t: ToolMeta| required_fields(t.definition.input_schema)) == session_required_params(),
        r@.map_values(|t: ToolMeta| t.definition.description@) == session_descriptions(),
        r@.map_values(|t: ToolMeta| schema_properties(t.definition.input_schema)) == session_properties(),
        forall|i: int| 0 <= i < r@.len() ==> (#[trigger] r@[i]).agent_allowed,
{
    let r: Vec<ToolMeta> = vec![
        check_interruption_definition(),
        set_active_context_definition(),
        session_stats_definition(),
    ];
    assert(r@.map_values(|t: ToolMeta| t.definition.name@) =~= session_tool_names());
    assert(r@.map_values(|t: ToolMeta| required_fields(t.definition.input_schema)) =~~= session_required_params());
    assert(r@.map_values(|t: ToolMeta| t.definition.description@) =~= session_descriptions());
    assert(r@.map_values(|t: ToolMeta| schema_properties(t.definition.input_schema)) =~~= session_properties());
    r
}
/// The names of all the tools, in the order the server lists them.
pub open spec fn all_tool_names() -> Seq<Seq<char>> {
    bluesky_tool_names()
        + facts_tool_names()
        + enrich_tool_names()
        + notes_tool_names()
        + jobs_tool_names()
        + identity_tool_names()
        + blog_tool_names()
        + custom_tools_tool_names()
        + directives_tool_names()
        + declarations_tool_names()
        + pds_tool_names()
        + inbox_tool_names()
        + session_tool_names()
}

/// All the tool definitions, in the order the server lists them; the
/// agent may use every one.
pub fn all_tool_definitions() -> (r: Vec<ToolMeta>)
    ensures
        r@.map_values(|t: ToolMeta| t.definition.name@) == all_tool_names(),
        forall|i: int| 0 <= i < r@.len() ==> (#[trigger] r@[i]).agent_allowed,
{
    let mut r = bluesky_tool_definitions();
    let ghost mut names = bluesky_tool_names();
    let mut more = facts_tool_definitions();
    let ghost before = r@;
    let ghost added = more@;
    r.append(&mut more);
    proof {
        assert(r@.map_values(|t: ToolMeta| t.definition.name@) =~= before.map_values(|t: ToolMeta| t.definition.name@) + added.map_values(|t: ToolMeta| t.definition.name@));
        names = names + facts_tool_names();
        assert forall|i: int| 0 <= i < r@.len() implies (#[trigger] r@[i]).agent_allowed by {
            if i < before.len() { assert(r@[i] == before[i]); } else { assert(r@[i] == added[i - before.len()]); }
        }
    }
    let mut more = enrich_tool_definitions();
    let ghost before = r@;
    let ghost added = more@;
    r.append(&mut more);
    proof {
        assert(r@.map_values(|t: ToolMeta| t.definition.name@) =~= before.map_values(|t: ToolMeta| t.definition.name@) + added.map_values(|t: ToolMeta| t.definition.name@));
        names = names + enrich_tool_names();
        assert forall|i: int| 0 <= i < r@.len() implies (#[trigger] r@[i]).agent_allowed by {
            if i < before.len() { assert(r@[i] == before[i]); } else { assert(r@[i] == added[i - before.len()]); }
        }
    }
    let mut more = notes_tool_definitions();
    let ghost before = r@;
    let ghost added = more@;
    r.append(&mut more);
    proof {
        assert(r@.map_values(|t: ToolMeta| t.definition.name@) =~= before.map_values(|t: ToolMeta| t.definition.name@) + added.map_values(|t: ToolMeta| t.definition.name@));
        names = names + notes_tool_names();
        assert forall|i: int| 0 <= i < r@.len() implies (#[trigger] r@[i]).agent_allowed by {
            if i < before.len() { assert(r@[i] == before[i]); } else { assert(r@[i] == added[i - before.len()]); }
        }
    }
    let mut more = jobs_tool_definitions();
    let ghost before = r@;
    let ghost added = more@;
    r.append(&mut more);
    proof {
        assert(r@.map_values(|t: ToolMeta| t.definition.name@) =~= before.map_values(|t: ToolMeta| t.definition.name@) + added.map_values(|t: ToolMeta| t.definition.name@));
        names = names + jobs_tool_names();
        assert forall|i: int| 0 <= i < r@.len() implies (#[trigger] r@[i]).agent_allowed by {
            if i < before.len() { assert(r@[i] == before[i]); } else { assert(r@[i] == added[i - before.len()]); }
        }
    }
    let mut more = identity_tool_definitions();
    let ghost before = r@;
    let ghost added = more@;
    r.append(&mut more);
    proof {
        assert(r@.map_values(|t: ToolMeta| t.definition.name@) =~= before.map_values(|t: ToolMeta| t.definition.name@) + added.map_values(|t: ToolMeta| t.definition.name@));
        names = names + identity_tool_names();
        assert forall|i: int| 0 <= i < r@.len() implies (#[trigger] r@[i]).agent_allowed by {
            if i < before.len() { assert(r@[i] == before[i]); } else { assert(r@[i] == added[i - before.len()]); }
        }
    }
    let mut more = blog_tool_definitions();
    let ghost before = r@;
    let ghost added = more@;
    r.append(&mut more);
    proof {
        assert(r@.map_values(|t: ToolMeta| t.definition.name@) =~= before.map_values(|t: ToolMeta| t.definition.name@) + added.map_values(|t: ToolMeta| t.definition.name@));
        names = names + blog_tool_names();
        assert forall|i: int| 0 <= i < r@.len() implies (#[trigger] r@[i]).agent_allowed by {
            if i < before.len() { assert(r@[i] == before[i]); } else { assert(r@[i] == added[i - before.len()]); }
        }
    }
    let mut more = custom_tools_tool_definitions();
    let ghost before = r@;
    let ghost added = more@;
    r.append(&mut more);
    proof {
        assert(r@.map_values(|t: ToolMeta| t.definition.name@) =~= before.map_values(|t: ToolMeta| t.definition.name@) + added.map_values(|t: ToolMeta| t.definition.name@));
        names = names + custom_tools_tool_names();
        assert forall|i: int| 0 <= i < r@.len() implies (#[trigger] r@[i]).agent_allowed by {
            if i < before.len() { assert(r@[i] == before[i]); } else { assert(r@[i] == added[i - before.len()]); }
        }
    }
    let mut more = directives_tool_definitions();
    let ghost before = r@;
    let ghost added = more@;
    r.append(&mut more);
    proof {
        assert(r@.map_values(|t: ToolMeta| t.definition.name@) =~= before.map_values(|t: ToolMeta| t.definition.name@) + added.map_values(|t: ToolMeta| t.definition.name@));
        names = names + directives_tool_names();
        assert forall|i: int| 0 <= i < r@.len() implies (#[trigger] r@[i]).agent_allowed by {
            if i < before.len() { assert(r@[i] == before[i]); } else { assert(r@[i] == added[i - before.len()]); }
        }
    }
    let mut more = declarations_tool_definitions();
    let ghost before = r@;
    let ghost added = more@;
    r.append(&mut more);
    proof {
        assert(r@.map_values(|t: ToolMeta| t.definition.name@) =~= before.map_values(|t: ToolMeta| t.definition.name@) + added.map_values(|t: ToolMeta| t.definition.name@));
        names = names + declarations_tool_names();
        assert forall|i: int| 0 <= i < r@.len() implies (#[trigger] r@[i]).agent_allowed by {
            if i < before.len() { assert(r@[i] == before[i]); } else { assert(r@[i] == added[i - before.len()]); }
        }
    }
    let mut more = pds_tool_definitions();
    let ghost before = r@;
    let ghost added = more@;
    r.append(&mut more);
    proof {
        assert(r@.map_values(|t: ToolMeta| t.definition.name@) =~= before.map_values(|t: ToolMeta| t.definition.name@) + added.map_values(|t: ToolMeta| t.definition.name@));
        names = names + pds_tool_names();
        assert forall|i: int| 0 <= i < r@.len() implies (#[trigger] r@[i]).agent_allowed by {
            if i < before.len() { assert(r@[i] == before[i]); } else { assert(r@[i] == added[i - before.len()]); }
        }
    }
    let mut more = inbox_tool_definitions();
    let ghost before = r@;
    let ghost added = more@;
    r.append(&mut more);
    proof {
        assert(r@.map_values(|t: ToolMeta| t.definition.name@) =~= before.map_values(|t: ToolMeta| t.definition.name@) + added.map_values(|t: ToolMeta| t.definition.name@));
        names = names + inbox_tool_names();
        assert forall|i: int| 0 <= i < r@.len() implies (#[trigger] r@[i]).agent_allowed by {
            if i < before.len() { assert(r@[i] == before[i]); } else { assert(r@[i] == added[i - before.len()]); }
        }
    }
    let mut more = session_tool_definitions();
    let ghost before = r@;
    let ghost added = more@;
    r.append(&mut more);
    proof {
        assert(r@.map_values(|t: ToolMeta| t.definition.name@) =~= before.map_values(|t: ToolMeta| t.definition.name@) + added.map_values(|t: ToolMeta| t.definition.name@));
        names = names + session_tool_names();
        assert forall|i: int| 0 <= i < r@.len() implies (#[trigger] r@[i]).agent_allowed by {
            if i < before.len() { assert(r@[i] == before[i]); } else { assert(r@[i] == added[i - before.len()]); }
        }
    }
    assert(names =~= all_tool_names());
    r
}

} // verus!
