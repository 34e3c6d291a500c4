//! Parsing of `--pull-files` arguments of the form `ROOT:PATH`.

use vstd::prelude::*;

use crate::errors::PullArgError;
use crate::strutil::find_char;
use crate::strutil::find_char_from;
use crate::strutil::str_eq;

verus! {

/// The files to pull from devices after a run.
#[derive(Debug, Clone, PartialEq, Eq)]
pub struct PullFileConfig {
    pub pull_items: Vec<PullFileItem>,
}

/// One file or directory to pull, rooted at a device storage root.
#[derive(Debug, Clone, PartialEq, Eq)]
pub struct PullFileItem {
    pub relative_path: String,
    pub aggregation_mode: String,
    pub path_root: String,
}

/// `i` is the position of the only `:` in `arg`.
pub open spec fn is_unique_colon(arg: Seq<char>, i: int) -> bool {
    &&& 0 <= i < arg.len()
    &&& arg[i] == ':'
    &&& forall|j: int| 0 <= j < arg.len() && j != i ==> arg[j] != ':'
}

/// The shape `ROOT:PATH`: exactly one colon.
pub open spec fn pull_arg_shape_ok(arg: Seq<char>) -> bool {
    exists|i: int| is_unique_colon(arg, i)
}

/// A storage root this library accepts.
pub open spec fn is_valid_pull_root(root: Seq<char>) -> bool {
    root == "EXTERNAL_STORAGE"@ || root == "APP_DATA"@
}

/// A well-formed argument with an accepted root.
pub open spec fn pull_arg_ok(arg: Seq<char>) -> bool {
    exists|i: int| is_unique_colon(arg, i) && is_valid_pull_root(#[trigger] arg.take(i))
}

/// `item` is the parse of `arg`.
pub open spec fn pull_item_matches(arg: Seq<char>, item: PullFileItem) -> bool {
    exists|i: int|
        {
            &&& is_unique_colon(arg, i)
            &&& item.path_root@ == #[trigger] arg.take(i)
            &&& item.relative_path@ == arg.skip(i + 1)
            &&& item.aggregation_mode@ == "TEST_RUN"@
        }
}

/// Parse one `ROOT:PATH` argument.
pub fn parse_pull_arg(arg: &String) -> (r: Result<PullFileItem, PullArgError>)
    ensures
        r is Ok ==> pull_arg_ok(arg@) && pull_item_matches(arg@, r->Ok_0),
        r is Err ==> !pull_arg_ok(arg@),
        r matches Err(PullArgError::InvalidFormat { arg: bad }) ==> !pull_arg_shape_ok(arg@)
            && bad@ == arg@,
        r matches Err(PullArgError::InvalidRootType { used_type }) ==> exists|i: int|
            is_unique_colon(arg@, i) && used_type@ == #[trigger] arg@.take(i) && !is_valid_pull_root(
            arg@.take(i),
        ),
{
    let s = arg.as_str();
    let len = s.unicode_len();
    let first = find_char(s, ':');
    let i = match first {
        Some(i) => i,
        None => {
            proof {
                assert forall|i: int| !is_unique_colon(arg@, i) by {}
            }
            return Err(PullArgError::InvalidFormat { arg: arg.clone() });
        },
    };
    let second = find_char_from(s, ':', i + 1);
    if second.is_some() {
        proof {
            let k = second->Some_0 as int;
            assert(arg@[k] == ':');
            assert forall|j: int| !is_unique_colon(arg@, j) by {
                if is_unique_colon(arg@, j) {
                    if j != i {
                        assert(arg@[i as int] == ':');
                    } else {
                        assert(arg@[k] == ':');
                    }
                }
            }
        }
        return Err(PullArgError::InvalidFormat { arg: arg.clone() });
    }
    assert(is_unique_colon(arg@, i as int));
    let root = s.substring_char(0, i);
    let rel = s.substring_char(i + 1, len);
    assert(root@ == arg@.take(i as int));
    assert(rel@ == arg@.skip(i as int + 1));
    let is_external = str_eq(root, "EXTERNAL_STORAGE");
    let is_app_data = str_eq(root, "APP_DATA");
    if !is_external && !is_app_data {
        proof {
            assert forall|j: int| is_unique_colon(arg@, j) implies !is_valid_pull_root(
                arg@.take(j),
            ) by {
                assert(j == i as int);
            }
        }
        return Err(PullArgError::InvalidRootType { used_type: root.to_owned() });
    }
    let item = PullFileItem {
        relative_path: rel.to_owned(),
        aggregation_mode: String::from_str("TEST_RUN"),
        path_root: root.to_owned(),
    };
    assert(pull_item_matches(arg@, item)) by {
        assert(is_unique_colon(arg@, i as int) && item.path_root@ == arg@.take(i as int)
            && item.relative_path@ == arg@.skip(i as int + 1) && item.aggregation_mode@
            == "TEST_RUN"@);
    }
    Ok(item)
}

/// Parse every `ROOT:PATH` argument, stopping at the first bad one.
pub fn parse_pull_args(pull_args: Vec<String>) -> (r: Result<PullFileConfig, PullArgError>)
    ensures
        r matches Ok(cfg) ==> {
            &&& cfg.pull_items@.len() == pull_args@.len()
            &&& forall|k: int|
                0 <= k < pull_args@.len() ==> pull_item_matches(
                    #[trigger] pull_args@[k]@,
                    cfg.pull_items@[k],
                )
        },
        r is Ok <==> (forall|k: int| 0 <= k < pull_args@.len() ==> pull_arg_ok(
            #[trigger] pull_args@[k]@,
        )),
        r matches Err(e) ==> exists|k: int|
            {
                &&& 0 <= k < pull_args@.len()
                &&& !pull_arg_ok(#[trigger] pull_args@[k]@)
                &&& (forall|m: int| 0 <= m < k ==> pull_arg_ok(#[trigger] pull_args@[m]@))
                &&& (e matches PullArgError::InvalidFormat { arg: bad } ==> !pull_arg_shape_ok(
                    pull_args@[k]@,
                ) && bad@ == pull_args@[k]@)
                &&& (e matches PullArgError::InvalidRootType { used_type } ==> exists|i: int|
                    is_unique_colon(pull_args@[k]@, i) && used_type@
                        == #[trigger] pull_args@[k]@.take(i))
            },
{
    let mut pulls: Vec<PullFileItem> = Vec::new();
    let n = pull_args.len();
    let mut k: usize = 0;
    while k < n
        invariant
            n == pull_args@.len(),
            k <= n,
            pulls@.len() == k,
            forall|m: int| 0 <= m < k ==> pull_arg_ok(#[trigger] pull_args@[m]@),
            forall|m: int|
                0 <= m < k ==> pull_item_matches(#[trigger] pull_args@[m]@, pulls@[m]),
        decreases n - k,
    {
        let parsed = parse_pull_arg(&pull_args[k]);
        match parsed {
            Ok(item) => {
                pulls.push(item);
            },
            Err(e) => {
                return Err(e);
            },
        }
        k = k + 1;
    }
    Ok(PullFileConfig { pull_items: pulls })
}

} // verus!
