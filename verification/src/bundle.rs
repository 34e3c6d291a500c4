//! Application and library bundles submitted with a run.

use vstd::prelude::*;

use crate::cli::model::LocalFileReference;
use crate::errors::InputError;
use crate::strutil::find_char;
use crate::strutil::find_char_from;

verus! {

/// An application and its test application, by path.
#[derive(Debug, Clone, PartialEq, Eq)]
pub struct ApplicationBundle {
    pub application: String,
    pub test_application: String,
}

/// An application bundle whose files have been hashed.
#[derive(Debug, Clone, PartialEq, Eq)]
pub struct ApplicationBundleReference {
    pub application: LocalFileReference,
    pub test_application: LocalFileReference,
}

/// A library bundle: only a test application.
#[derive(Debug, Clone, PartialEq, Eq)]
pub struct LibraryBundleReference {
    pub test_application: LocalFileReference,
}

/// `i` is the position of the only `,` in `s`.
pub open spec fn is_unique_comma(s: Seq<char>, i: int) -> bool {
    &&& 0 <= i < s.len()
    &&& s[i] == ','
    &&& forall|j: int| 0 <= j < s.len() && j != i ==> s[j] != ','
}

/// Split `<app_path>,<test_app_path>` into an [`ApplicationBundle`].
pub fn transform(input: &str) -> (r: Result<ApplicationBundle, InputError>)
    ensures
        r matches Ok(bundle) ==> exists|i: int|
            {
                &&& #[trigger] is_unique_comma(input@, i)
                &&& bundle.application@ == input@.take(i)
                &&& bundle.test_application@ == input@.skip(i + 1)
            },
        r is Ok <==> exists|i: int| is_unique_comma(input@, i),
        r matches Err(e) ==> e matches InputError::InvalidApplicationBundle { bundle } && bundle@
            == input@,
{
    let len = input.unicode_len();
    let first = find_char(input, ',');
    let i = match first {
        Some(i) => i,
        None => {
            proof {
                assert forall|i: int| !is_unique_comma(input@, i) by {}
            }
            return Err(InputError::InvalidApplicationBundle { bundle: input.to_owned() });
        },
    };
    let second = find_char_from(input, ',', i + 1);
    if second.is_some() {
        proof {
            let k = second->Some_0 as int;
            assert forall|j: int| !is_unique_comma(input@, j) by {
                if is_unique_comma(input@, j) {
                    if j != i {
                        assert(input@[i as int] == ',');
                    } else {
                        assert(input@[k] == ',');
                    }
                }
            }
        }
        return Err(InputError::InvalidApplicationBundle { bundle: input.to_owned() });
    }
    let application = input.substring_char(0, i).to_owned();
    let test_application = input.substring_char(i + 1, len).to_owned();
    assert(is_unique_comma(input@, i as int));
    Ok(ApplicationBundle { application, test_application })
}

} // verus!
