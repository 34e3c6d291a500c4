//! The rules a filter configuration must satisfy, and the conversion of
//! `.xctestplan` test identifiers into filters.
//!
//! Reading and deserialising the files happens outside the library; these
//! functions judge and transform the parsed values.

use vstd::prelude::*;

use crate::errors::FilteringConfigurationError;
use crate::errors::InputError;
use crate::filtering::model::Filter;
use crate::filtering::model::FilteringConfiguration;
use crate::filtering::model::SparseMarathonfile;
use crate::strutil::contains_str;
use crate::strutil::has_str;
use crate::strutil::str_eq;

verus! {

/// A filter type the service runs.
pub open spec fn is_supported_type(t: Seq<char>) -> bool {
    ||| t == "fully-qualified-class-name"@
    ||| t == "fully-qualified-test-name"@
    ||| t == "simple-class-name"@
    ||| t == "simple-test-name"@
    ||| t == "package"@
    ||| t == "method"@
    ||| t == "annotation"@
}

/// A filter type the service knows but does not run.
pub open spec fn is_unsupported_type(t: Seq<char>) -> bool {
    t == "allure"@ || t == "fragmentation"@ || t == "annotationData"@
}

fn type_supported(t: &str) -> (r: bool)
    ensures
        r == is_supported_type(t@),
{
    str_eq(t, "fully-qualified-class-name") || str_eq(t, "fully-qualified-test-name") || str_eq(
        t,
        "simple-class-name",
    ) || str_eq(t, "simple-test-name") || str_eq(t, "package") || str_eq(t, "method") || str_eq(
        t,
        "annotation",
    )
}

fn type_unsupported(t: &str) -> (r: bool)
    ensures
        r == is_unsupported_type(t@),
{
    str_eq(t, "allure") || str_eq(t, "fragmentation") || str_eq(t, "annotationData")
}

/// A leaf filter in good shape: a runnable type, and exactly one of a
/// regex, a value list or a relative value file.
pub open spec fn leaf_filter_ok(f: Filter) -> bool {
    &&& !is_unsupported_type(f.mtype@)
    &&& is_supported_type(f.mtype@)
    &&& {
        ||| (f.regex is Some && f.values is None && f.file is None)
        ||| (f.regex is None && f.values is Some && f.file is None)
        ||| (f.regex is None && f.values is None && (f.file matches Some(p) && (p@.len() > 0
            ==> p@[0] != '/')))
    }
}

/// A composition in good shape: a non-empty operation over well-shaped
/// leaves.
pub open spec fn composition_filter_ok(f: Filter) -> bool {
    &&& f.op matches Some(op) && op@.len() > 0
    &&& f.filters matches Some(fs) && (forall|i: int|
        0 <= i < fs@.len() ==> leaf_filter_ok(#[trigger] fs@[i]))
}

/// A filter in good shape.
pub open spec fn filter_ok(f: Filter) -> bool {
    if f.mtype@ == "composition"@ {
        composition_filter_ok(f)
    } else {
        leaf_filter_ok(f)
    }
}

/// Every filter of the list in good shape.
pub open spec fn filters_ok(s: Seq<Filter>) -> bool {
    forall|i: int| 0 <= i < s.len() ==> filter_ok(#[trigger] s[i])
}

/// Both lists of the configuration in good shape.
pub open spec fn configuration_ok(cnf: FilteringConfiguration) -> bool {
    &&& (cnf.allowlist matches Some(v) ==> filters_ok(v@))
    &&& (cnf.blocklist matches Some(v) ==> filters_ok(v@))
}

/// Judge one leaf filter. The value file, if any, is only checked for
/// being relative here; whether it exists and has content is the caller's
/// check when it resolves the file.
pub fn validate_filter(filter: &Filter) -> (r: Result<(), FilteringConfigurationError>)
    ensures
        r is Ok <==> leaf_filter_ok(*filter),
        r matches Err(FilteringConfigurationError::UnsupportedFilterType { mtype }) ==> (
        is_unsupported_type(filter.mtype@) && mtype@ == filter.mtype@),
        r matches Err(FilteringConfigurationError::InvalidFilterType { mtype }) ==> (
        !is_unsupported_type(filter.mtype@) && !is_supported_type(filter.mtype@) && mtype@
            == filter.mtype@),
        r matches Err(FilteringConfigurationError::InvalidFilterConfiguration { mtype, .. }) ==> (
        !is_unsupported_type(filter.mtype@) && is_supported_type(filter.mtype@) && mtype@
            == filter.mtype@),
{
    if type_unsupported(filter.mtype.as_str()) {
        return Err(
            FilteringConfigurationError::UnsupportedFilterType { mtype: filter.mtype.clone() },
        );
    }
    if !type_supported(filter.mtype.as_str()) {
        return Err(FilteringConfigurationError::InvalidFilterType { mtype: filter.mtype.clone() });
    }
    match (&filter.regex, &filter.values, &filter.file) {
        (None, None, None) => Err(
            FilteringConfigurationError::InvalidFilterConfiguration {
                mtype: filter.mtype.clone(),
                message: String::from_str(
                    "At least one of regex, values or file should be specified",
                ),
            },
        ),
        (None, None, Some(path)) => {
            let plen = path.as_str().unicode_len();
            if plen > 0 && path.as_str().get_char(0) == '/' {
                Err(
                    FilteringConfigurationError::InvalidFilterConfiguration {
                        mtype: filter.mtype.clone(),
                        message: String::from_str(
                            "File should be specified relative to the filter file",
                        ),
                    },
                )
            } else {
                Ok(())
            }
        },
        (None, Some(_), None) => Ok(()),
        (Some(_), None, None) => Ok(()),
        _ => Err(
            FilteringConfigurationError::InvalidFilterConfiguration {
                mtype: filter.mtype.clone(),
                message: String::from_str("only one of [regex, values, file] can be specified"),
            },
        ),
    }
}

proof fn lemma_child_breaks_composition(f: Filter, i: int)
    requires
        f.filters is Some,
        0 <= i < f.filters->Some_0@.len(),
        !leaf_filter_ok(f.filters->Some_0@[i]),
    ensures
        !composition_filter_ok(f),
{
    let fsv = f.filters->Some_0;
    if composition_filter_ok(f) {
        assert(leaf_filter_ok(fsv@[i]));
    }
}

/// Judge one filter, descending one level into a composition.
pub fn validate_one(filter: &Filter) -> (r: Result<(), FilteringConfigurationError>)
    ensures
        r is Ok <==> filter_ok(*filter),
{
    if str_eq(filter.mtype.as_str(), "composition") {
        match &filter.op {
            None => {
                return Err(
                    FilteringConfigurationError::InvalidFilterConfiguration {
                        mtype: filter.mtype.clone(),
                        message: String::from_str("missing 'op' field"),
                    },
                );
            },
            Some(op) => {
                if op.as_str().unicode_len() == 0 {
                    return Err(
                        FilteringConfigurationError::InvalidFilterConfiguration {
                            mtype: filter.mtype.clone(),
                            message: String::from_str("empty 'op' field"),
                        },
                    );
                }
            },
        }
        match &filter.filters {
            None => Err(
                FilteringConfigurationError::InvalidFilterConfiguration {
                    mtype: filter.mtype.clone(),
                    message: String::from_str("missing composition filters"),
                },
            ),
            Some(children) => {
                assert(filter.filters == Some(*children));
                let n = children.len();
                let mut i: usize = 0;
                while i < n
                    invariant
                        n == children@.len(),
                        i <= n,
                        filter.filters == Some(*children),
                        filter.mtype@ == "composition"@,
                        forall|j: int| 0 <= j < i ==> leaf_filter_ok(#[trigger] children@[j]),
                    decreases n - i,
                {
                    match validate_filter(&children[i]) {
                        Ok(_) => {},
                        Err(e) => {
                            assert(!leaf_filter_ok(children@[i as int]));
                            proof {
                                lemma_child_breaks_composition(*filter, i as int);
                            }
                            return Err(e);
                        },
                    }
                    i = i + 1;
                }
                Ok(())
            },
        }
    } else {
        validate_filter(filter)
    }
}

/// Judge a list of filters; the first offence decides.
pub fn validate_filters(filters: &Vec<Filter>) -> (r: Result<(), FilteringConfigurationError>)
    ensures
        r is Ok <==> filters_ok(filters@),
{
    let n = filters.len();
    let mut i: usize = 0;
    while i < n
        invariant
            n == filters@.len(),
            i <= n,
            forall|j: int| 0 <= j < i ==> filter_ok(#[trigger] filters@[j]),
        decreases n - i,
    {
        match validate_one(&filters[i]) {
            Ok(_) => {},
            Err(e) => {
                return Err(e);
            },
        }
        i = i + 1;
    }
    Ok(())
}

/// Judge a whole filter file: the raw text must name the filtering
/// configuration and at least one of the two lists, and every filter must
/// be in good shape.
pub fn validate(original_content: &str, cnf: &FilteringConfiguration) -> (r: Result<
    (),
    FilteringConfigurationError,
>)
    ensures
        r is Ok <==> (contains_str(original_content@, "filteringConfiguration"@) && (contains_str(
            original_content@,
            "allowlist"@,
        ) || contains_str(original_content@, "blocklist"@)) && configuration_ok(*cnf)),
        r matches Err(FilteringConfigurationError::MissedMandatoryFields { fields }) ==> {
            &&& (!contains_str(original_content@, "filteringConfiguration"@) ==> fields@
                == "filteringConfiguration"@)
            &&& (contains_str(original_content@, "filteringConfiguration"@) && !contains_str(
                original_content@,
                "allowlist"@,
            ) && !contains_str(original_content@, "blocklist"@) ==> fields@
                == "At least one of 'allowlist' and 'blocklist' should be presented"@)
        },
{
    proof {
        reveal_strlit("filteringConfiguration");
        reveal_strlit("allowlist");
        reveal_strlit("blocklist");
    }
    if !has_str(original_content, "filteringConfiguration") {
        return Err(
            FilteringConfigurationError::MissedMandatoryFields {
                fields: String::from_str("filteringConfiguration"),
            },
        );
    }
    if !has_str(original_content, "allowlist") && !has_str(original_content, "blocklist") {
        return Err(
            FilteringConfigurationError::MissedMandatoryFields {
                fields: String::from_str(
                    "At least one of 'allowlist' and 'blocklist' should be presented",
                ),
            },
        );
    }
    match &cnf.allowlist {
        Some(filters) => {
            match validate_filters(filters) {
                Ok(_) => {},
                Err(e) => {
                    return Err(e);
                },
            }
        },
        None => {},
    }
    match &cnf.blocklist {
        Some(filters) => {
            match validate_filters(filters) {
                Ok(_) => {},
                Err(e) => {
                    return Err(e);
                },
            }
        },
        None => {},
    }
    Ok(())
}

/// A `#` that ends a run of whitespace: from there to the end of the line
/// stands a trailing comment.
pub open spec fn is_comment_hash(t: Seq<char>, j: int) -> bool {
    0 < j < t.len() && t[j] == '#' && crate::strutil::is_space(#[trigger] t[j - 1])
}

/// The line carries a trailing comment.
pub open spec fn has_comment(t: Seq<char>) -> bool {
    exists|j: int| is_comment_hash(t, j)
}

/// `j` is the earliest comment hash.
pub open spec fn is_first_comment_hash(t: Seq<char>, j: int) -> bool {
    is_comment_hash(t, j) && forall|j2: int| 0 < j2 < j ==> !is_comment_hash(t, j2)
}

/// The earliest comment hash; meaningful only on lines with a comment.
pub open spec fn first_comment_hash(t: Seq<char>) -> int {
    choose|j: int| is_first_comment_hash(t, j)
}

/// `i` begins the whitespace run that leads into position `j`.
pub open spec fn is_run_start(t: Seq<char>, j: int, i: int) -> bool {
    &&& 0 <= i < j <= t.len()
    &&& (forall|k: int| i <= k < j ==> crate::strutil::is_space(#[trigger] t[k]))
    &&& (i == 0 || !crate::strutil::is_space(t[i - 1]))
}

/// Where the trailing comment of `t` begins: the start of the whitespace
/// run before its first comment hash.
pub open spec fn comment_start(t: Seq<char>) -> int {
    choose|i: int| is_run_start(t, first_comment_hash(t), i)
}

/// `t` with its trailing comment removed: everything from the whitespace
/// that leads into the first `#` after whitespace is dropped.
pub open spec fn spec_strip_comment(t: Seq<char>) -> Seq<char> {
    if has_comment(t) {
        t.take(comment_start(t))
    } else {
        t
    }
}

proof fn lemma_first_comment_hash(t: Seq<char>, j: int)
    requires
        is_first_comment_hash(t, j),
    ensures
        first_comment_hash(t) == j,
{
    assert(exists|j2: int| is_first_comment_hash(t, j2));
    let j2 = first_comment_hash(t);
    if j2 < j {
        assert(!is_comment_hash(t, j2));
    }
    if j < j2 {
        assert(!is_comment_hash(t, j));
    }
}

fn is_space_char(c: char) -> (r: bool)
    ensures
        r == crate::strutil::is_space(c),
{
    c == ' ' || c == '\t' || c == '\n' || c == '\r' || c == '\u{0b}' || c == '\u{0c}'
}

/// Remove the trailing comment of one already-trimmed line.
pub fn strip_comment(t: &str) -> (r: String)
    ensures
        r@ == spec_strip_comment(t@),
{
    let len = t.unicode_len();
    let mut j: usize = 1;
    while j < len
        invariant
            len == t@.len(),
            1 <= j,
            j <= len || len < 1,
            forall|j2: int| 0 < j2 < j ==> !is_comment_hash(t@, j2),
        decreases len - j,
    {
        if t.get_char(j) == '#' && is_space_char(t.get_char(j - 1)) {
            assert(is_first_comment_hash(t@, j as int));
            proof {
                lemma_first_comment_hash(t@, j as int);
            }
            let mut i: usize = j - 1;
            while i > 0 && is_space_char(t.get_char(i - 1))
                invariant
                    len == t@.len(),
                    i < j < len,
                    t@[j as int] == '#',
                    forall|k: int| i <= k < j ==> crate::strutil::is_space(#[trigger] t@[k]),
                decreases i,
            {
                i = i - 1;
            }
            assert(is_run_start(t@, j as int, i as int));
            proof {
                let i2 = comment_start(t@);
                assert(is_run_start(t@, j as int, i2));
                if i2 < i as int {
                    assert(crate::strutil::is_space(t@[i - 1]));
                }
                if (i as int) < i2 {
                    assert(crate::strutil::is_space(t@[i2 - 1]));
                }
                assert(i2 == i as int);
            }
            return t.substring_char(0, i).to_owned();
        }
        j = j + 1;
    }
    assert(!has_comment(t@));
    t.to_owned()
}

/// `i` is the position of the first line break.
pub open spec fn is_first_nl(s: Seq<char>, i: int) -> bool {
    0 <= i < s.len() && s[i] == '\n' && (forall|j: int| 0 <= j < i ==> s[j] != '\n')
}

/// The position of the first line break; meaningful only when one exists.
pub open spec fn first_nl(s: Seq<char>) -> int {
    choose|i: int| is_first_nl(s, i)
}

/// A line without its trailing carriage return.
pub open spec fn spec_strip_cr(line: Seq<char>) -> Seq<char> {
    if line.len() > 0 && line.last() == '\r' {
        line.drop_last()
    } else {
        line
    }
}

/// The lines of `s`: split at `\n`, each line stripped of a trailing
/// `\r`, and no empty line after a final line break.
pub open spec fn spec_lines(s: Seq<char>) -> Seq<Seq<char>>
    decreases s.len(),
{
    if s.len() == 0 {
        Seq::empty()
    } else if exists|i: int| is_first_nl(s, i) {
        seq![spec_strip_cr(s.take(first_nl(s)))] + spec_lines(s.skip(first_nl(s) + 1))
    } else {
        seq![spec_strip_cr(s)]
    }
}

proof fn lemma_first_nl(s: Seq<char>, i: int)
    requires
        is_first_nl(s, i),
    ensures
        first_nl(s) == i,
{
    assert(exists|i2: int| is_first_nl(s, i2));
    let i2 = first_nl(s);
    if i2 < i {
        assert(s[i2] != '\n');
    }
    if i < i2 {
        assert(s[i] != '\n');
    }
}

/// The views of a sequence of strings.
pub open spec fn views_of(v: Seq<String>) -> Seq<Seq<char>> {
    v.map_values(|x: String| x@)
}

/// Split `s` into its lines.
pub fn split_lines(s: &str) -> (r: Vec<String>)
    ensures
        views_of(r@) == spec_lines(s@),
{
    let len = s.unicode_len();
    let mut out: Vec<String> = Vec::new();
    let mut pos: usize = 0;
    assert(s@.skip(0) =~= s@);
    assert(views_of(out@) =~= Seq::<Seq<char>>::empty());
    while pos < len
        invariant
            len == s@.len(),
            pos <= len,
            spec_lines(s@) == views_of(out@) + spec_lines(s@.skip(pos as int)),
        decreases len - pos,
    {
        let ghost rest = s@.skip(pos as int);
        let found = crate::strutil::find_char_from(s, '\n', pos);
        match found {
            Some(i) => {
                proof {
                    assert(rest[i - pos] == s@[i as int]);
                    assert forall|j: int| 0 <= j < i - pos implies rest[j] != '\n' by {
                        assert(rest[j] == s@[j + pos]);
                    }
                    assert(is_first_nl(rest, i - pos));
                    lemma_first_nl(rest, i - pos);
                }
                let end = if i > pos && s.get_char(i - 1) == '\r' {
                    i - 1
                } else {
                    i
                };
                let line = s.substring_char(pos, end).to_owned();
                proof {
                    assert(rest.take(i - pos) =~= s@.subrange(pos as int, i as int));
                    if i > pos && s@[i - 1] == '\r' {
                        assert(rest.take(i - pos).last() == s@[i - 1]);
                        assert(rest.take(i - pos).drop_last() =~= s@.subrange(
                            pos as int,
                            i - 1,
                        ));
                    }
                    assert(line@ == spec_strip_cr(rest.take(i - pos)));
                    assert(rest.skip(i - pos + 1) =~= s@.skip(i + 1));
                }
                out.push(line);
                proof {
                    assert(views_of(out@) =~= views_of(out@.drop_last()).push(
                        out@.last()@,
                    ));
                    assert(spec_lines(s@) =~= views_of(out@) + spec_lines(s@.skip(i + 1)));
                }
                pos = i + 1;
            },
            None => {
                proof {
                    assert forall|j: int| 0 <= j < rest.len() implies rest[j] != '\n' by {
                        assert(rest[j] == s@[j + pos]);
                    }
                    assert(forall|i2: int| !is_first_nl(rest, i2));
                }
                let end = if s.get_char(len - 1) == '\r' {
                    len - 1
                } else {
                    len
                };
                let line = s.substring_char(pos, end).to_owned();
                proof {
                    assert(rest =~= s@.subrange(pos as int, len as int));
                    if s@[len - 1] == '\r' {
                        assert(rest.last() == s@[len - 1]);
                        assert(rest.drop_last() =~= s@.subrange(pos as int, len - 1));
                    }
                    assert(line@ == spec_strip_cr(rest));
                }
                out.push(line);
                proof {
                    assert(views_of(out@) =~= views_of(out@.drop_last()).push(
                        out@.last()@,
                    ));
                    assert(spec_lines(s@) =~= views_of(out@));
                    assert(s@.skip(len as int) =~= Seq::<char>::empty());
                    assert(spec_lines(s@) =~= views_of(out@) + spec_lines(s@.skip(len as int)));
                }
                pos = len;
            },
        }
    }
    assert(s@.skip(len as int) =~= Seq::<char>::empty());
    assert(views_of(out@) =~= spec_lines(s@));
    out
}

/// The usable values of a list of lines: each line trimmed, empty lines
/// and `#`-led lines dropped, trailing comments removed.
pub open spec fn spec_filter_values(lines: Seq<Seq<char>>) -> Seq<Seq<char>>
    decreases lines.len(),
{
    if lines.len() == 0 {
        Seq::empty()
    } else {
        let t = crate::strutil::spec_trim(lines.last());
        spec_filter_values(lines.drop_last()) + (if t.len() == 0 || t[0] == '#' {
            Seq::empty()
        } else {
            seq![spec_strip_comment(t)]
        })
    }
}

/// The values a filter file contributes: its lines, trimmed, with blank
/// and comment lines dropped and trailing comments removed.
pub fn parse_values_content(content: &str) -> (r: Vec<String>)
    ensures
        views_of(r@) == spec_filter_values(spec_lines(content@)),
{
    let lines = split_lines(content);
    let mut out: Vec<String> = Vec::new();
    let n = lines.len();
    let mut i: usize = 0;
    assert(views_of(lines@).take(0) =~= Seq::<Seq<char>>::empty());
    assert(views_of(out@) =~= Seq::<Seq<char>>::empty());
    assert(spec_filter_values(views_of(lines@).take(0)) =~= Seq::<Seq<char>>::empty());
    while i < n
        invariant
            n == lines@.len(),
            i <= n,
            views_of(lines@) == spec_lines(content@),
            views_of(out@) == spec_filter_values(views_of(lines@).take(i as int)),
        decreases n - i,
    {
        let ghost lv = views_of(lines@);
        assert(lv.take(i + 1).drop_last() =~= lv.take(i as int));
        assert(lv.take(i + 1).last() == lv[i as int]);
        assert(lv[i as int] == lines@[i as int]@);
        let trimmed = crate::strutil::trim(lines[i].as_str());
        let tlen = trimmed.as_str().unicode_len();
        if tlen == 0 || trimmed.as_str().get_char(0) == '#' {
            assert(views_of(out@) =~= spec_filter_values(lv.take(i + 1)));
        } else {
            let value = strip_comment(trimmed.as_str());
            out.push(value);
            assert(views_of(out@) =~= views_of(out@.drop_last()).push(out@.last()@));
            assert(views_of(out@) =~= spec_filter_values(lv.take(i + 1)));
        }
        i = i + 1;
    }
    assert(views_of(lines@).take(n as int) =~= views_of(lines@));
    out
}

/// A filter whose value file has been read: the values take the file's
/// place.
pub fn resolve_filter_values(filter: Filter, values: Vec<String>) -> (r: Filter)
    ensures
        r.mtype == filter.mtype,
        r.regex == filter.regex,
        r.values == Some(values),
        r.file is None,
        r.filters == filter.filters,
        r.op == filter.op,
{
    Filter {
        mtype: filter.mtype,
        regex: filter.regex,
        values: Some(values),
        file: None,
        filters: filter.filters,
        op: filter.op,
    }
}

/// A plan identifier that names a test rather than a bare class: it
/// carries a path separator or a call marker.
pub open spec fn is_test_id(id: Seq<char>) -> bool {
    id.contains('/') || id.contains('(')
}

/// A plan identifier in the service's form: `\/` becomes `#`, every
/// remaining `/` becomes `#`, and `()` is dropped.
pub open spec fn spec_marathon_id(id: Seq<char>) -> Seq<char> {
    crate::strutil::spec_replace_pair(
        crate::strutil::spec_replace_one(
            crate::strutil::spec_replace_pair(id, '\\', '/', seq!['#']),
            '/',
            seq!['#'],
        ),
        '(',
        ')',
        Seq::empty(),
    )
}

/// The bare class names among the identifiers, in order.
pub open spec fn spec_class_names(ids: Seq<String>) -> Seq<Seq<char>>
    decreases ids.len(),
{
    if ids.len() == 0 {
        Seq::empty()
    } else {
        spec_class_names(ids.drop_last()) + (if !is_test_id(ids.last()@) {
            seq![ids.last()@]
        } else {
            Seq::empty()
        })
    }
}

/// The test identifiers, already in the service's form, in order.
pub open spec fn spec_test_names(ids: Seq<String>) -> Seq<Seq<char>>
    decreases ids.len(),
{
    if ids.len() == 0 {
        Seq::empty()
    } else {
        spec_test_names(ids.drop_last()) + (if is_test_id(ids.last()@) {
            seq![spec_marathon_id(ids.last()@)]
        } else {
            Seq::empty()
        })
    }
}

/// A plain filter holding exactly these values under this type.
pub open spec fn values_filter_ok(f: Filter, mtype: Seq<char>, values: Seq<Seq<char>>) -> bool {
    &&& f.mtype@ == mtype
    &&& f.values matches Some(v) && views_of(v@) == values
    &&& f.regex is None
    &&& f.file is None
    &&& f.filters is None
    &&& f.op is None
}

/// The filter [`xctestplan_ids_to_filter`] promises for these identifiers:
/// class names filter by simple class name, test identifiers by simple
/// test name, and a mix becomes the union of both.
pub open spec fn ids_filter_ok(ids: Seq<String>, f: Filter) -> bool {
    let cls = spec_class_names(ids);
    let tst = spec_test_names(ids);
    if cls.len() > 0 && tst.len() > 0 {
        &&& f.mtype@ == "composition"@
        &&& f.op matches Some(op) && op@ == "UNION"@
        &&& f.values is None
        &&& f.regex is None
        &&& f.file is None
        &&& f.filters matches Some(fs) && fs@.len() == 2 && values_filter_ok(
            fs@[0],
            "simple-class-name"@,
            cls,
        ) && values_filter_ok(fs@[1], "simple-test-name"@, tst)
    } else if cls.len() > 0 {
        values_filter_ok(f, "simple-class-name"@, cls)
    } else {
        values_filter_ok(f, "simple-test-name"@, tst)
    }
}

fn marathon_id(id: &str) -> (r: String)
    ensures
        r@ == spec_marathon_id(id@),
{
    proof {
        reveal_strlit("#");
        reveal_strlit("");
    }
    assert("#"@ =~= seq!['#']);
    assert(""@ =~= Seq::<char>::empty());
    let step1 = crate::strutil::replace_pair(id, '\\', '/', "#");
    let step2 = crate::strutil::replace_one(step1.as_str(), '/', "#");
    let step3 = crate::strutil::replace_pair(step2.as_str(), '(', ')', "");
    step3
}

/// Turn the identifiers of a test plan into one filter for the service.
pub fn xctestplan_ids_to_filter(ids: &Vec<String>) -> (r: Filter)
    ensures
        ids_filter_ok(ids@, r),
{
    let mut class_names: Vec<String> = Vec::new();
    let mut simple_test_names: Vec<String> = Vec::new();
    let n = ids.len();
    let mut i: usize = 0;
    assert(ids@.take(0) =~= Seq::<String>::empty());
    assert(views_of(class_names@) =~= Seq::<Seq<char>>::empty());
    assert(views_of(simple_test_names@) =~= Seq::<Seq<char>>::empty());
    while i < n
        invariant
            n == ids@.len(),
            i <= n,
            views_of(class_names@) == spec_class_names(ids@.take(i as int)),
            views_of(simple_test_names@) == spec_test_names(ids@.take(i as int)),
        decreases n - i,
    {
        assert(ids@.take(i + 1).drop_last() =~= ids@.take(i as int));
        assert(ids@.take(i + 1).last() == ids@[i as int]);
        let id = &ids[i];
        if crate::strutil::contains_char(id.as_str(), '/') || crate::strutil::contains_char(
            id.as_str(),
            '(',
        ) {
            simple_test_names.push(marathon_id(id.as_str()));
            assert(views_of(simple_test_names@) =~= views_of(
                simple_test_names@.drop_last(),
            ).push(simple_test_names@.last()@));
        } else {
            class_names.push(id.clone());
            assert(views_of(class_names@) =~= views_of(class_names@.drop_last()).push(
                class_names@.last()@,
            ));
        }
        assert(views_of(class_names@) =~= spec_class_names(ids@.take(i + 1)));
        assert(views_of(simple_test_names@) =~= spec_test_names(ids@.take(i + 1)));
        i = i + 1;
    }
    assert(ids@.take(n as int) =~= ids@);
    if class_names.len() > 0 && simple_test_names.len() > 0 {
        let class_name_filter = Filter {
            mtype: String::from_str("simple-class-name"),
            values: Some(class_names),
            op: None,
            file: None,
            regex: None,
            filters: None,
        };
        let simple_qualified_test_name_filter = Filter {
            mtype: String::from_str("simple-test-name"),
            values: Some(simple_test_names),
            op: None,
            file: None,
            regex: None,
            filters: None,
        };
        let mut both: Vec<Filter> = Vec::new();
        both.push(class_name_filter);
        both.push(simple_qualified_test_name_filter);
        Filter {
            mtype: String::from_str("composition"),
            values: None,
            op: Some(String::from_str("UNION")),
            filters: Some(both),
            regex: None,
            file: None,
        }
    } else if class_names.len() > 0 {
        Filter {
            mtype: String::from_str("simple-class-name"),
            values: Some(class_names),
            op: None,
            file: None,
            regex: None,
            filters: None,
        }
    } else {
        Filter {
            mtype: String::from_str("simple-test-name"),
            values: Some(simple_test_names),
            op: None,
            file: None,
            regex: None,
            filters: None,
        }
    }
}

/// `k` points at the test target the caller named, or at the first one
/// when no name was given.
pub open spec fn is_chosen_target(
    targets: Seq<crate::filtering::xctestplan::TestTarget>,
    target_name: Option<String>,
    k: int,
) -> bool {
    match target_name {
        Some(n) => {
            &&& 0 <= k < targets.len()
            &&& targets[k].target.name@ == n@
            &&& forall|j: int| 0 <= j < k ==> (#[trigger] targets[j]).target.name@ != n@
        },
        None => k == 0 && targets.len() > 0,
    }
}

/// Turn a test plan into a filter configuration: the selected tests of the
/// chosen target become the allowlist, its skipped tests the blocklist. A
/// plan without a usable target is refused.
pub fn xctestplan_to_marathonfile(
    plan: &crate::filtering::xctestplan::SparseTestPlan,
    target_name: Option<String>,
) -> (r: Result<SparseMarathonfile, InputError>)
    ensures
        r is Ok <==> (match target_name {
            Some(n) => exists|k: int|
                0 <= k < plan.test_targets@.len() && (#[trigger] plan.test_targets@[k]).target.name@
                    == n@,
            None => plan.test_targets@.len() > 0,
        }),
        r matches Err(e) ==> e is XctestplanMissingTargets,
        r matches Ok(m) ==> exists|k: int|
            {
                &&& #[trigger] is_chosen_target(plan.test_targets@, target_name, k)
                &&& (match plan.test_targets@[k].selected_tests {
                    Some(ids) => m.filtering_configuration.allowlist matches Some(v) && v@.len()
                        == 1 && ids_filter_ok(ids@, v@[0]),
                    None => m.filtering_configuration.allowlist is None,
                })
                &&& (match plan.test_targets@[k].skipped_tests {
                    Some(ids) => m.filtering_configuration.blocklist matches Some(v) && v@.len()
                        == 1 && ids_filter_ok(ids@, v@[0]),
                    None => m.filtering_configuration.blocklist is None,
                })
            },
{
    let n = plan.test_targets.len();
    let chosen: usize = match &target_name {
        Some(name) => {
            let mut k: usize = 0;
            let mut found: Option<usize> = None;
            while k < n
                invariant
                    n == plan.test_targets@.len(),
                    k <= n,
                    target_name matches Some(nm) && nm@ == name@,
                    found is None ==> forall|j: int|
                        0 <= j < k ==> (#[trigger] plan.test_targets@[j]).target.name@ != name@,
                    found matches Some(f) ==> is_chosen_target(
                        plan.test_targets@,
                        target_name,
                        f as int,
                    ),
                decreases n - k,
            {
                if found.is_none() && str_eq(
                    plan.test_targets[k].target.name.as_str(),
                    name.as_str(),
                ) {
                    found = Some(k);
                }
                k = k + 1;
            }
            match found {
                Some(f) => f,
                None => {
                    return Err(InputError::XctestplanMissingTargets);
                },
            }
        },
        None => {
            if n == 0 {
                return Err(InputError::XctestplanMissingTargets);
            }
            assert(is_chosen_target(plan.test_targets@, target_name, 0));
            0
        },
    };
    let target = &plan.test_targets[chosen];
    let allowlist: Option<Vec<Filter>> = match &target.selected_tests {
        Some(ids) => {
            let mut one: Vec<Filter> = Vec::new();
            one.push(xctestplan_ids_to_filter(ids));
            Some(one)
        },
        None => None,
    };
    let blocklist: Option<Vec<Filter>> = match &target.skipped_tests {
        Some(ids) => {
            let mut one: Vec<Filter> = Vec::new();
            one.push(xctestplan_ids_to_filter(ids));
            Some(one)
        },
        None => None,
    };
    let filtering_configuration = FilteringConfiguration { allowlist, blocklist };
    Ok(SparseMarathonfile { filtering_configuration })
}

} // verus!
