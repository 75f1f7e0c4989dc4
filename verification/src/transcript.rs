use vstd::prelude::*;
use vstd::string::*;
use crate::errors::GenError;
use crate::text::{append_chars, chars_of, string_from_chars};

verus! {

/// A role-tagged chat message, the unit of the transcript handed to the
/// chat-markup renderer.
pub struct Message {
    pub role: String,
    pub content: String,
}

/// Fixed system instruction: SQL-dialect guidance the model sees before the
/// user's question.
pub const SYSTEM_PROMPT: &'static str = r#"System:
Your task is to generate valid DuckDB SQL to answer the question that the user asks. You should only respond with a valid DuckDB SQL query.

Here are some DuckDB SQL syntax specifics you should be aware of:


- DuckDB use double quotes (") for identifiers that contain spaces or special characters, or to force case-sensitivity and single quotes (') to define string literals
- DuckDB can query CSV, Parquet, and JSON directly without loading them first, e.g. `SELECT * FROM 'data.csv';`
- DuckDB supports CREATE TABLE AS (CTAS): `CREATE TABLE new_table AS SELECT * FROM old_table;`
- DuckDB queries can start with FROM, and optionally omit SELECT *, e.g. `FROM my_table WHERE condition;` is equivalent to `SELECT * FROM my_table WHERE condition;`
- DuckDB allows you to use SELECT without a FROM clause to generate a single row of results or to work with expressions directly, e.g. `SELECT 1 + 1 AS result;`
- DuckDB supports attaching multiple databases, unsing the ATTACH statement: `ATTACH 'my_database.duckdb' AS mydb;`. Tables within attached databases can be accessed using the dot notation (.), e.g. `SELECT * FROM mydb.table_name syntax`. The default databases doesn't require the do notation to access tables. The default database can be changed with the USE statement, e.g. `USE my_db;`.
- DuckDB is generally more lenient with implicit type conversions (e.g. `SELECT '42' + 1;` - Implicit cast, result is 43), but you can always be explicit using `::`, e.g. `SELECT '42'::INTEGER + 1;`
- DuckDB can extract parts of strings and lists using [start:end] or [start:end:step] syntax. Indexes start at 1. String slicing: `SELECT 'DuckDB'[1:4];`. Array/List slicing: `SELECT [1, 2, 3, 4][1:3];`
- DuckDB has a powerful way to select or transform multiple columns using patterns or functions. You can select columns matching a pattern: `SELECT COLUMNS('sales_.*') FROM sales_data;` or transform multiple columns with a function: `SELECT AVG(COLUMNS('sales_.*')) FROM sales_data;`
- DuckDB an easy way to include/exclude or modify columns when selecting all: e.g. Exclude: `SELECT * EXCLUDE (sensitive_data) FROM users;` Replace: `SELECT * REPLACE (UPPER(name) AS name) FROM users;`
- DuckDB has a shorthand for grouping/ordering by all non-aggregated/all columns. e.g `SELECT category, SUM(sales) FROM sales_data GROUP BY ALL;` and `SELECT * FROM my_table ORDER BY ALL;`
- DuckDB can combine tables by matching column names, not just their positions using UNION BY NAME. E.g. `SELECT * FROM table1 UNION BY NAME SELECT * FROM table2;`
- DuckDB has an inutitive syntax to create List/Struct/Map and Array types. Create complex types using intuitive syntax. List: `SELECT [1, 2, 3] AS my_list;`, Struct: `{{'a': 1, 'b': 'text'}} AS my_struct;`, Map: `MAP([1,2],['one','two']) as my_map;`. All types can also be nested into each other. Array types are fixed size, while list types have variable size. Compared to Structs, MAPs do not need to have the same keys present for each row, but keys can only be of type Integer or Varchar. Example: `CREATE TABLE example (my_list INTEGER[], my_struct STRUCT(a INTEGER, b TEXT), my_map MAP(INTEGER, VARCHAR),  my_array INTEGER[3], my_nested_struct STRUCT(a INTEGER, b Integer[3]));`
- DuckDB has an inutive syntax to access struct fields using dot notation (.) or brackets ([]) with the field name. Maps fields can be accessed by brackets ([]).
- DuckDB's way of converting between text and timestamps, and extract date parts. Current date as 'YYYY-MM-DD': `SELECT strftime(NOW(), '%Y-%m-%d');` String to timestamp: `SELECT strptime('2023-07-23', '%Y-%m-%d')::TIMESTAMP;`, Extract Year from date: `SELECT EXTRACT(YEAR FROM DATE '2023-07-23');`
- Column Aliases in WHERE/GROUP BY/HAVING: You can use column aliases defined in the SELECT clause within the WHERE, GROUP BY, and HAVING clauses. E.g.: `SELECT a + b AS total FROM my_table WHERE total > 10 GROUP BY total HAVING total < 20;`
- DuckDB allows generating lists using expressions similar to Python list comprehensions. E.g. `SELECT [x*2 FOR x IN [1, 2, 3]];` Returns [2, 4, 6].
- DuckDB allows chaining multiple function calls together using the dot (.) operator. E.g.: `SELECT 'DuckDB'.replace('Duck', 'Goose').upper(); -- Returns 'GOOSEDB';`
- DuckDB has a JSON data type. It supports selecting fields from the JSON with a JSON-Path expression using the arrow operator, -> (returns JSON) or ->> (returns text) with JSONPath expressions. For example: `SELECT data->'$.user.id' AS user_id, data->>'$.event_type' AS event_type FROM events;`
- DuckDB has built-in functions for regex regexp_matches(column, regex), regexp_replace(column, regex), and regexp_extract(column, regex).
- DuckDB has a way to quickly get a subset of your data with `SELECT * FROM large_table USING SAMPLE 10%;`
"#;

/// ChatML rendering of one message:
/// `<|im_start|>` role `\n` content `<|im_end|>` `\n`.
pub open spec fn spec_chatml_message(role: Seq<char>, content: Seq<char>) -> Seq<char> {
    "<|im_start|>"@ + role + "\n"@ + content + "<|im_end|>"@ + "\n"@
}

/// ChatML rendering of a transcript, closed, when asked, by the assistant
/// header that signals the model should respond now.
pub open spec fn spec_chatml(msgs: Seq<Message>, add_generation_prompt: bool) -> Seq<char>
    decreases msgs.len(),
{
    if msgs.len() == 0 {
        if add_generation_prompt {
            "<|im_start|>assistant\n"@
        } else {
            Seq::empty()
        }
    } else {
        spec_chatml_message(msgs[0].role@, msgs[0].content@) + spec_chatml(
            msgs.skip(1),
            add_generation_prompt,
        )
    }
}

/// The user-facing content of this engine's single user message: the
/// question, a literal schema label, and the schema text.
pub open spec fn spec_user_content(prompt: Seq<char>, schema: Seq<char>) -> Seq<char> {
    prompt + "\nSCHEMA: "@ + schema
}

/// The full transcript this engine renders for a question/schema pair.
pub open spec fn spec_transcript(prompt: Seq<char>, schema: Seq<char>) -> Seq<char> {
    spec_chatml_message("system"@, SYSTEM_PROMPT@) + spec_chatml_message(
        "user"@,
        spec_user_content(prompt, schema),
    ) + "<|im_start|>assistant\n"@
}

/// Relies on `chat_templates::apply_template` with the ChatML template: it
/// renders `<|im_start|>role\ncontent<|im_end|>\n` for every message, in
/// order, and, when asked, appends `<|im_start|>assistant\n`. The fixed
/// template parses, and rendering only concatenates the messages' string
/// fields, so the call succeeds on every message list.
#[verifier::external_body]
pub(crate) fn apply_chatml(messages: &Vec<Message>, add_generation_prompt: bool) -> (r: Result<
    String,
    GenError,
>)
    ensures
        r is Ok,
        r matches Ok(s) ==> s@ == spec_chatml(messages@, add_generation_prompt),
{
    let msgs: Vec<chat_templates::Message> = messages
        .iter()
        .map(|m| chat_templates::Message { role: m.role.clone(), content: m.content.clone() })
        .collect();
    chat_templates::apply_template(chat_templates::ChatTemplate::ChatML, &msgs, add_generation_prompt)
        .map_err(|e| GenError::Template(e.to_string()))
}

/// Builds the model-facing transcript: a fixed system message with the SQL
/// guidance, and a user message holding the question and the schema, rendered
/// as ChatML with a trailing assistant header. Rendering a transcript of this
/// fixed two-message shape cannot fail, so success is promised; the `Result`
/// stays, as the renderer's failure channel a caller is asked to handle.
pub fn compose(user_prompt: &str, schema_text: &str) -> (r: Result<String, GenError>)
    ensures
        r is Ok,
        r matches Ok(s) ==> s@ == spec_transcript(user_prompt@, schema_text@),
{
    let mut combined: Vec<char> = chars_of(user_prompt);
    let label = chars_of("\nSCHEMA: ");
    append_chars(&mut combined, &label);
    let schema_chars = chars_of(schema_text);
    append_chars(&mut combined, &schema_chars);
    assert(combined@ == spec_user_content(user_prompt@, schema_text@));
    let system = Message { role: "system".to_owned(), content: SYSTEM_PROMPT.to_owned() };
    let user = Message { role: "user".to_owned(), content: string_from_chars(&combined) };
    let msgs = vec![system, user];
    let r = apply_chatml(&msgs, true);
    proof {
        let m = msgs@;
        let m1 = m.skip(1);
        assert(m.len() == 2 && m1.len() == 1);
        assert(m1[0] == m[1]);
        assert(spec_chatml(Seq::<Message>::empty(), true) == "<|im_start|>assistant\n"@);
        assert(m1.skip(1) =~= Seq::<Message>::empty());
        assert(spec_chatml(m1, true) == spec_chatml_message(m1[0].role@, m1[0].content@)
            + spec_chatml(m1.skip(1), true));
        assert(spec_chatml(m, true) == spec_chatml_message(m[0].role@, m[0].content@)
            + spec_chatml(m1, true));
        assert(spec_chatml(m, true) =~= spec_transcript(user_prompt@, schema_text@));
    }
    r
}

} // verus!
