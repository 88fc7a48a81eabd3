//! The grammar of the SQL dialect, in the notation of the grammar engine.
//!
//! Each rule that is written in braces without a leading underscore names
//! one tag of [`Rule`](crate::cst::Rule): the tag's name in lower case, with
//! an underscore between its words. A rule with a leading underscore leaves
//! no node. A name in capitals that starts with `K_` is a keyword: it
//! matches without regard to case, and only where no letter, digit or
//! underscore follows it.

use vstd::prelude::*;

verus! {

/// The grammar. The builders rely on the order in which a rule lists its
/// parts: it is the order of the children that they walk.
pub const GRAMMAR: &'static str = r#"
WHITESPACE = _{ " " | "\t" | "\r" | "\n" }
COMMENT = _{ "--" ~ (!"\n" ~ ANY)* | "/*" ~ (!"*/" ~ ANY)* ~ "*/" }

script = { SOI ~ stmt+ ~ !ANY }
stmt = {
    ( select | insert | update | delete | create_table | create_index | create_view
    | create_trigger | alter_table | drop_table | drop_index | drop_view | drop_trigger )
    ~ (";" | !ANY)
}

word_end = _{ !(ASCII_ALPHANUMERIC | "_") }
bare_ident = @{ !keyword ~ (ASCII_ALPHA | "_") ~ (ASCII_ALPHANUMERIC | "_")* }
quoted_ident = @{ "\"" ~ (!"\"" ~ ANY)* ~ "\"" }
ident = { quoted_ident | bare_ident }
idents = { ident ~ ("," ~ ident)* }
schema_object = { ident ~ ("." ~ ident)? }

number = @{
    ("+" | "-")?
    ~ (ASCII_DIGIT+ ~ ("." ~ ASCII_DIGIT*)? | "." ~ ASCII_DIGIT+)
    ~ (^"e" ~ ("+" | "-")? ~ ASCII_DIGIT+)?
}
string_literal = @{ "'" ~ ("''" | !"'" ~ ANY)* ~ "'" }
blob_literal = @{ ^"x" ~ "'" ~ ASCII_HEX_DIGIT* ~ "'" }
null_literal = @{ null_kw }
true_literal = @{ true_kw }
false_literal = @{ false_kw }
literal = { blob_literal | number | string_literal | null_literal | true_literal | false_literal }

logical_or = @{ or_kw }
logical_and = @{ and_kw }
logical_not = @{ not_kw }
is_not = @{ is_kw ~ (WHITESPACE | COMMENT)+ ~ not_kw }
is = @{ is_kw }
eq = { "==" | "=" }
ne = { "!=" | "<>" }
lt = { "<" }
le = { "<=" }
gt = { ">" }
ge = { ">=" }
bitwise_and = { "&" }
bitwise_or = { "|" }
right_shift = { ">>" }
left_shift = { "<<" }
plus = { "+" }
minus = { "-" }
mul = { "*" }
div = { "/" }
modulo = { "%" }
concat = { "||" }
bitwise_not = { "~" }
positive = { "+" }
negative = { "-" }

prefix_op = _{ logical_not | bitwise_not | positive | negative }
infix_op = _{
    concat | mul | div | modulo | plus | minus | left_shift | right_shift | le | ge | ne
    | lt | gt | eq | bitwise_and | bitwise_or | is_not | is | logical_and | logical_or
}
primary = _{ literal | qualified_column | "(" ~ exprs ~ ")" }
qualified_column = { ident ~ ("." ~ ident){0, 2} }
expr = { prefix_op* ~ primary ~ (infix_op ~ prefix_op* ~ primary)* }
exprs = { expr ~ ("," ~ expr)* }

asc = @{ asc_kw }
desc = @{ desc_kw }
temp = @{ temporary_kw | temp_kw }
unique = @{ unique_kw }
if_exists = { K_IF ~ K_EXISTS }
if_not_exists = { K_IF ~ K_NOT ~ K_EXISTS }

conflict_abort = @{ abort_kw }
conflict_fail = @{ fail_kw }
conflict_ignore = @{ ignore_kw }
conflict_replace = @{ replace_kw }
conflict_rollback = @{ rollback_kw }
conflict_resolution = {
    K_OR ~ (conflict_abort | conflict_fail | conflict_ignore | conflict_replace | conflict_rollback)
}
conflict_clause = _{ K_ON ~ K_CONFLICT ~ (K_ABORT | K_FAIL | K_IGNORE | K_REPLACE | K_ROLLBACK) }

begin = { K_BEGIN ~ (deferred | immediate | exclusive)? ~ K_TRANSACTION? }
deferred = @{ deferred_kw }
immediate = @{ immediate_kw }
exclusive = @{ exclusive_kw }
commit = { (K_COMMIT | K_END) ~ K_TRANSACTION? }
rollback = { K_ROLLBACK ~ K_TRANSACTION? ~ (K_TO ~ K_SAVEPOINT? ~ ident)? }
savepoint = { K_SAVEPOINT ~ ident }
release = { K_RELEASE ~ K_SAVEPOINT? ~ ident }

create_table = { K_CREATE ~ temp? ~ K_TABLE ~ if_not_exists? ~ schema_object ~ create_table_body }
create_table_body = {
    K_AS ~ select
    | "(" ~ column_defs ~ table_constraints ~ ")" ~ (table_option ~ ("," ~ table_option)*)?
}
table_option = _{ without_rowid | strict }
without_rowid = { K_WITHOUT ~ K_ROWID }
strict = @{ strict_kw }
column_defs = { column_def ~ ("," ~ column_def)* }
column_def = { ident ~ type_name? ~ column_constraints? }
column_constraints = { column_constraint+ }
type_name = {
    (type_decimal | type_double | type_int | type_string | type_varchar)
    ~ ("(" ~ type_size ~ ("," ~ type_size)? ~ ")")?
}
type_decimal = @{ (^"decimal" | ^"numeric") ~ word_end }
type_double = @{ (^"double" | ^"float" | ^"real") ~ word_end }
type_int = @{ (^"integer" | ^"int") ~ word_end }
type_string = @{ (^"string" | ^"text") ~ word_end }
type_varchar = @{ ^"varchar" ~ word_end }
type_size = @{ ("+" | "-")? ~ ASCII_DIGIT+ }
column_constraint = {
    (K_CONSTRAINT ~ ident)?
    ~ (column_primary_key | column_not_null | column_unique | column_check | column_default)
}
column_primary_key = { K_PRIMARY ~ K_KEY ~ (asc | desc)? ~ conflict_clause? ~ autoincrement? }
autoincrement = @{ autoincrement_kw }
column_not_null = { K_NOT ~ K_NULL ~ conflict_clause? }
column_unique = { K_UNIQUE ~ conflict_clause? }
column_check = { K_CHECK ~ "(" ~ expr ~ ")" }
column_default = { K_DEFAULT ~ literal }
table_constraints = { ("," ~ table_constraint)* }
table_constraint = { (K_CONSTRAINT ~ ident)? ~ (table_primary_key | table_unique) }
table_primary_key = { K_PRIMARY ~ K_KEY ~ "(" ~ indexed_columns ~ ")" ~ conflict_clause? }
table_unique = { K_UNIQUE ~ "(" ~ indexed_columns ~ ")" ~ conflict_clause? }
indexed_columns = { indexed_column ~ ("," ~ indexed_column)* }
indexed_column = { ident ~ (asc | desc)? }

alter_table = { K_ALTER ~ K_TABLE ~ schema_object ~ (rename_table | rename_column | add_column | drop_column) }
rename_table = { K_RENAME ~ K_TO ~ ident }
rename_column = { K_RENAME ~ K_COLUMN? ~ ident ~ K_TO ~ ident }
add_column = { K_ADD ~ K_COLUMN? ~ column_def }
drop_column = { K_DROP ~ K_COLUMN? ~ ident }

drop_table = { K_DROP ~ K_TABLE ~ if_exists? ~ schema_object }
drop_index = { K_DROP ~ K_INDEX ~ if_exists? ~ schema_object }
drop_view = { K_DROP ~ K_VIEW ~ if_exists? ~ schema_object }
drop_trigger = { K_DROP ~ K_TRIGGER ~ if_exists? ~ schema_object }

create_index = {
    K_CREATE ~ unique? ~ K_INDEX ~ if_not_exists? ~ schema_object ~ K_ON ~ ident
    ~ "(" ~ indexed_columns ~ ")" ~ (K_WHERE ~ expr)?
}
create_view = {
    K_CREATE ~ temp? ~ K_VIEW ~ if_not_exists? ~ schema_object ~ ("(" ~ idents ~ ")")? ~ K_AS ~ select
}
create_trigger = {
    K_CREATE ~ temp? ~ K_TRIGGER ~ if_not_exists? ~ schema_object
    ~ (before | after | instead) ~ (trigger_delete | trigger_insert | trigger_update)
    ~ K_ON ~ ident ~ (K_FOR ~ K_EACH ~ K_ROW)? ~ when_clause?
    ~ K_BEGIN ~ ((select | insert | update | delete) ~ ";")+ ~ K_END
}
before = @{ before_kw }
after = @{ after_kw }
instead = { K_INSTEAD ~ K_OF }
trigger_delete = @{ delete_kw }
trigger_insert = @{ insert_kw }
trigger_update = { K_UPDATE ~ (K_OF ~ idents)? }
when_clause = { K_WHEN ~ expr }

select = {
    select_core ~ (compound_operator ~ select_core)* ~ (K_ORDER ~ K_BY ~ ordering_terms)?
    ~ (K_LIMIT ~ expr ~ (K_OFFSET ~ expr)?)?
}
select_core = _{ select_query | select_values }
select_query = {
    K_SELECT ~ (distinct | all)? ~ result_columns ~ from_clause? ~ (K_WHERE ~ expr)?
    ~ (K_GROUP ~ K_BY ~ exprs ~ (K_HAVING ~ expr)?)?
}
select_values = { K_VALUES ~ value_rows }
value_rows = { "(" ~ exprs ~ ")" ~ ("," ~ "(" ~ exprs ~ ")")* }
distinct = @{ distinct_kw }
all = @{ all_kw }
compound_operator = { union_all | union | intersect | except }
union_all = { K_UNION ~ K_ALL }
union = @{ union_kw }
intersect = @{ intersect_kw }
except = @{ except_kw }
result_columns = { result_column ~ ("," ~ result_column)* }
result_column = { star | result_expr }
result_expr = { expr ~ (K_AS? ~ ident)? }
star = { "*" }
from_clause = { K_FROM ~ (from_tables | from_join) }
from_tables = { qualified_table ~ ("," ~ qualified_table)* ~ !join_operator }
from_join = { join_clause }
qualified_table = { schema_object ~ (K_AS? ~ ident)? ~ (indexed_by | not_indexed)? }
indexed_by = { K_INDEXED ~ K_BY ~ ident }
not_indexed = { K_NOT ~ K_INDEXED }
join_clause = { qualified_table ~ join_sub_clause+ }
join_sub_clause = { join_operator ~ qualified_table ~ join_constraint? }
join_operator = { join_comma | join_cross | join_qualified }
join_comma = { "," }
join_cross = { K_CROSS ~ K_JOIN }
join_qualified = { natural? ~ ((left | right | full) ~ K_OUTER? ~ K_JOIN | inner ~ K_JOIN) }
natural = @{ natural_kw }
inner = { K_INNER? }
left = @{ left_kw }
right = @{ right_kw }
full = @{ full_kw }
join_constraint = { K_ON ~ expr | K_USING ~ "(" ~ idents ~ ")" }
ordering_terms = { ordering_term ~ ("," ~ ordering_term)* }
ordering_term = { expr ~ (asc | desc)? ~ (K_NULLS ~ (first | last))? }
first = @{ ^"first" ~ word_end }
last = @{ ^"last" ~ word_end }

insert = {
    (insert_into | replace_into) ~ K_INTO ~ schema_object ~ (K_AS ~ ident)?
    ~ ("(" ~ idents ~ ")")? ~ (insert_values | insert_select | insert_default) ~ returning?
}
insert_into = { K_INSERT ~ conflict_resolution? }
replace_into = @{ replace_kw }
insert_values = { K_VALUES ~ value_rows ~ upsert_sub_clause? }
insert_select = { select ~ upsert_sub_clause? }
insert_default = { K_DEFAULT ~ K_VALUES }
returning = { K_RETURNING ~ (return_star | return_expr) ~ ("," ~ (return_star | return_expr))* }
return_star = { "*" }
return_expr = { expr ~ (K_AS? ~ ident)? }
upsert_sub_clause = { K_ON ~ K_CONFLICT ~ conflict_columns? ~ K_DO ~ (upsert_nothing | upsert_update) }
conflict_columns = { "(" ~ indexed_columns ~ ")" ~ (K_WHERE ~ expr)? }
upsert_nothing = @{ nothing_kw }
upsert_update = { K_UPDATE ~ K_SET ~ set_clause ~ (K_WHERE ~ expr)? }
set_clause = { set_sub_clause ~ ("," ~ set_sub_clause)* }
set_sub_clause = { (ident | "(" ~ idents ~ ")") ~ "=" ~ expr }

update = {
    K_UPDATE ~ conflict_resolution? ~ qualified_table ~ K_SET ~ set_clause ~ from_clause?
    ~ (K_WHERE ~ expr)? ~ returning?
}
delete = { K_DELETE ~ K_FROM ~ qualified_table ~ (K_WHERE ~ expr)? ~ returning? }

keyword = _{
      abort_kw | add_kw | after_kw | all_kw | alter_kw | and_kw | as_kw | asc_kw
    | autoincrement_kw | before_kw | begin_kw | by_kw | check_kw | column_kw | commit_kw
    | conflict_kw | constraint_kw | create_kw | cross_kw | default_kw | deferred_kw | delete_kw
    | desc_kw | distinct_kw | do_kw | drop_kw | each_kw | end_kw | except_kw | exclusive_kw
    | exists_kw | fail_kw | false_kw | for_kw | from_kw | full_kw | group_kw | having_kw
    | if_kw | ignore_kw | immediate_kw | index_kw | indexed_kw | inner_kw | insert_kw
    | instead_kw | intersect_kw | into_kw | is_kw | join_kw | key_kw | left_kw | limit_kw
    | natural_kw | not_kw | nothing_kw | null_kw | nulls_kw | of_kw | offset_kw | on_kw | or_kw
    | order_kw | outer_kw | primary_kw | release_kw | rename_kw | replace_kw | returning_kw
    | right_kw | rollback_kw | row_kw | rowid_kw | savepoint_kw | select_kw | set_kw
    | strict_kw | table_kw | temp_kw | temporary_kw | to_kw | transaction_kw | trigger_kw
    | true_kw | union_kw | unique_kw | update_kw | using_kw | values_kw | view_kw | when_kw
    | where_kw | without_kw
}
abort_kw = @{ ^"abort" ~ word_end }
add_kw = @{ ^"add" ~ word_end }
after_kw = @{ ^"after" ~ word_end }
all_kw = @{ ^"all" ~ word_end }
alter_kw = @{ ^"alter" ~ word_end }
and_kw = @{ ^"and" ~ word_end }
as_kw = @{ ^"as" ~ word_end }
asc_kw = @{ ^"asc" ~ word_end }
autoincrement_kw = @{ ^"autoincrement" ~ word_end }
before_kw = @{ ^"before" ~ word_end }
begin_kw = @{ ^"begin" ~ word_end }
by_kw = @{ ^"by" ~ word_end }
check_kw = @{ ^"check" ~ word_end }
column_kw = @{ ^"column" ~ word_end }
commit_kw = @{ ^"commit" ~ word_end }
conflict_kw = @{ ^"conflict" ~ word_end }
constraint_kw = @{ ^"constraint" ~ word_end }
create_kw = @{ ^"create" ~ word_end }
cross_kw = @{ ^"cross" ~ word_end }
default_kw = @{ ^"default" ~ word_end }
deferred_kw = @{ ^"deferred" ~ word_end }
delete_kw = @{ ^"delete" ~ word_end }
desc_kw = @{ ^"desc" ~ word_end }
distinct_kw = @{ ^"distinct" ~ word_end }
do_kw = @{ ^"do" ~ word_end }
drop_kw = @{ ^"drop" ~ word_end }
each_kw = @{ ^"each" ~ word_end }
end_kw = @{ ^"end" ~ word_end }
except_kw = @{ ^"except" ~ word_end }
exclusive_kw = @{ ^"exclusive" ~ word_end }
exists_kw = @{ ^"exists" ~ word_end }
fail_kw = @{ ^"fail" ~ word_end }
false_kw = @{ ^"false" ~ word_end }
for_kw = @{ ^"for" ~ word_end }
from_kw = @{ ^"from" ~ word_end }
full_kw = @{ ^"full" ~ word_end }
group_kw = @{ ^"group" ~ word_end }
having_kw = @{ ^"having" ~ word_end }
if_kw = @{ ^"if" ~ word_end }
ignore_kw = @{ ^"ignore" ~ word_end }
immediate_kw = @{ ^"immediate" ~ word_end }
index_kw = @{ ^"index" ~ word_end }
indexed_kw = @{ ^"indexed" ~ word_end }
inner_kw = @{ ^"inner" ~ word_end }
insert_kw = @{ ^"insert" ~ word_end }
instead_kw = @{ ^"instead" ~ word_end }
intersect_kw = @{ ^"intersect" ~ word_end }
into_kw = @{ ^"into" ~ word_end }
is_kw = @{ ^"is" ~ word_end }
join_kw = @{ ^"join" ~ word_end }
key_kw = @{ ^"key" ~ word_end }
left_kw = @{ ^"left" ~ word_end }
limit_kw = @{ ^"limit" ~ word_end }
natural_kw = @{ ^"natural" ~ word_end }
not_kw = @{ ^"not" ~ word_end }
nothing_kw = @{ ^"nothing" ~ word_end }
null_kw = @{ ^"null" ~ word_end }
nulls_kw = @{ ^"nulls" ~ word_end }
of_kw = @{ ^"of" ~ word_end }
offset_kw = @{ ^"offset" ~ word_end }
on_kw = @{ ^"on" ~ word_end }
or_kw = @{ ^"or" ~ word_end }
order_kw = @{ ^"order" ~ word_end }
outer_kw = @{ ^"outer" ~ word_end }
primary_kw = @{ ^"primary" ~ word_end }
release_kw = @{ ^"release" ~ word_end }
rename_kw = @{ ^"rename" ~ word_end }
replace_kw = @{ ^"replace" ~ word_end }
returning_kw = @{ ^"returning" ~ word_end }
right_kw = @{ ^"right" ~ word_end }
rollback_kw = @{ ^"rollback" ~ word_end }
row_kw = @{ ^"row" ~ word_end }
rowid_kw = @{ ^"rowid" ~ word_end }
savepoint_kw = @{ ^"savepoint" ~ word_end }
select_kw = @{ ^"select" ~ word_end }
set_kw = @{ ^"set" ~ word_end }
strict_kw = @{ ^"strict" ~ word_end }
table_kw = @{ ^"table" ~ word_end }
temp_kw = @{ ^"temp" ~ word_end }
temporary_kw = @{ ^"temporary" ~ word_end }
to_kw = @{ ^"to" ~ word_end }
transaction_kw = @{ ^"transaction" ~ word_end }
trigger_kw = @{ ^"trigger" ~ word_end }
true_kw = @{ ^"true" ~ word_end }
union_kw = @{ ^"union" ~ word_end }
unique_kw = @{ ^"unique" ~ word_end }
update_kw = @{ ^"update" ~ word_end }
using_kw = @{ ^"using" ~ word_end }
values_kw = @{ ^"values" ~ word_end }
view_kw = @{ ^"view" ~ word_end }
when_kw = @{ ^"when" ~ word_end }
where_kw = @{ ^"where" ~ word_end }
without_kw = @{ ^"without" ~ word_end }
K_ABORT = _{ &abort_kw ~ ^"abort" }
K_ADD = _{ &add_kw ~ ^"add" }
K_ALL = _{ &all_kw ~ ^"all" }
K_ALTER = _{ &alter_kw ~ ^"alter" }
K_AS = _{ &as_kw ~ ^"as" }
K_BEGIN = _{ &begin_kw ~ ^"begin" }
K_BY = _{ &by_kw ~ ^"by" }
K_CHECK = _{ &check_kw ~ ^"check" }
K_COLUMN = _{ &column_kw ~ ^"column" }
K_COMMIT = _{ &commit_kw ~ ^"commit" }
K_CONFLICT = _{ &conflict_kw ~ ^"conflict" }
K_CONSTRAINT = _{ &constraint_kw ~ ^"constraint" }
K_CREATE = _{ &create_kw ~ ^"create" }
K_CROSS = _{ &cross_kw ~ ^"cross" }
K_DEFAULT = _{ &default_kw ~ ^"default" }
K_DELETE = _{ &delete_kw ~ ^"delete" }
K_DO = _{ &do_kw ~ ^"do" }
K_DROP = _{ &drop_kw ~ ^"drop" }
K_EACH = _{ &each_kw ~ ^"each" }
K_END = _{ &end_kw ~ ^"end" }
K_EXISTS = _{ &exists_kw ~ ^"exists" }
K_FAIL = _{ &fail_kw ~ ^"fail" }
K_FOR = _{ &for_kw ~ ^"for" }
K_FROM = _{ &from_kw ~ ^"from" }
K_GROUP = _{ &group_kw ~ ^"group" }
K_HAVING = _{ &having_kw ~ ^"having" }
K_IF = _{ &if_kw ~ ^"if" }
K_IGNORE = _{ &ignore_kw ~ ^"ignore" }
K_INDEX = _{ &index_kw ~ ^"index" }
K_INDEXED = _{ &indexed_kw ~ ^"indexed" }
K_INNER = _{ &inner_kw ~ ^"inner" }
K_INSERT = _{ &insert_kw ~ ^"insert" }
K_INSTEAD = _{ &instead_kw ~ ^"instead" }
K_INTO = _{ &into_kw ~ ^"into" }
K_JOIN = _{ &join_kw ~ ^"join" }
K_KEY = _{ &key_kw ~ ^"key" }
K_LIMIT = _{ &limit_kw ~ ^"limit" }
K_NOT = _{ &not_kw ~ ^"not" }
K_NULL = _{ &null_kw ~ ^"null" }
K_NULLS = _{ &nulls_kw ~ ^"nulls" }
K_OF = _{ &of_kw ~ ^"of" }
K_OFFSET = _{ &offset_kw ~ ^"offset" }
K_ON = _{ &on_kw ~ ^"on" }
K_OR = _{ &or_kw ~ ^"or" }
K_ORDER = _{ &order_kw ~ ^"order" }
K_OUTER = _{ &outer_kw ~ ^"outer" }
K_PRIMARY = _{ &primary_kw ~ ^"primary" }
K_RELEASE = _{ &release_kw ~ ^"release" }
K_RENAME = _{ &rename_kw ~ ^"rename" }
K_REPLACE = _{ &replace_kw ~ ^"replace" }
K_RETURNING = _{ &returning_kw ~ ^"returning" }
K_ROLLBACK = _{ &rollback_kw ~ ^"rollback" }
K_ROW = _{ &row_kw ~ ^"row" }
K_ROWID = _{ &rowid_kw ~ ^"rowid" }
K_SAVEPOINT = _{ &savepoint_kw ~ ^"savepoint" }
K_SELECT = _{ &select_kw ~ ^"select" }
K_SET = _{ &set_kw ~ ^"set" }
K_TABLE = _{ &table_kw ~ ^"table" }
K_TO = _{ &to_kw ~ ^"to" }
K_TRANSACTION = _{ &transaction_kw ~ ^"transaction" }
K_TRIGGER = _{ &trigger_kw ~ ^"trigger" }
K_UNION = _{ &union_kw ~ ^"union" }
K_UNIQUE = _{ &unique_kw ~ ^"unique" }
K_UPDATE = _{ &update_kw ~ ^"update" }
K_USING = _{ &using_kw ~ ^"using" }
K_VALUES = _{ &values_kw ~ ^"values" }
K_VIEW = _{ &view_kw ~ ^"view" }
K_WHEN = _{ &when_kw ~ ^"when" }
K_WHERE = _{ &where_kw ~ ^"where" }
K_WITHOUT = _{ &without_kw ~ ^"without" }
"#;

} // verus!
