//! The shared precondition check: does the named, or the sole, container exist.
use vstd::prelude::*;
use vstd::string::StringExecFns;
use crate::error::{Error, ErrorView, unit_result_view};
use crate::objects::{Container, PodSpec, opt_view};

verus! {

/// How many containers of `cs` are named `n`.
pub open spec fn count_named(cs: Seq<Container>, n: Seq<char>) -> nat
    decreases cs.len(),
{
    if cs.len() == 0 {
        0
    } else {
        count_named(cs.drop_last(), n) + if cs.last().name@ == n {
            1nat
        } else {
            0nat
        }
    }
}

/// The containers of an optional pod spec; none when the spec is absent.
pub open spec fn spec_containers(p: Option<PodSpec>) -> Seq<Container> {
    match p {
        Some(p) => p.containers@,
        None => Seq::empty(),
    }
}

pub open spec fn not_found_text(n: Seq<char>) -> Seq<char> {
    "Container name "@ + n + " not found in PodSpec"@
}

pub open spec fn no_containers_text() -> Seq<char> {
    "No Containers Specified in PodSpec"@
}

pub open spec fn too_many_text() -> Seq<char> {
    "Too many containers in PodSpec, specify ContainerName in WebhookHelper Spec"@
}

/// The outcome of the container check: a named container must occur exactly
/// once; without a name the spec must hold exactly one container.
pub open spec fn container_check(name: Option<Seq<char>>, cs: Seq<Container>) -> Result<
    (),
    ErrorView,
> {
    match name {
        Some(n) => if count_named(cs, n) == 1 {
            Ok(())
        } else {
            Err(ErrorView::UnableToCreateObject(not_found_text(n)))
        },
        None => if cs.len() == 0 {
            Err(ErrorView::UnableToCreateObject(no_containers_text()))
        } else if cs.len() == 1 {
            Ok(())
        } else {
            Err(ErrorView::UnableToCreateObject(too_many_text()))
        },
    }
}

/// Counts the containers of `cs` named `n`, stopping at two.
fn count_up_to_two(cs: &Vec<Container>, n: &String) -> (r: usize)
    ensures
        r == if count_named(cs@, n@) < 2 {
            count_named(cs@, n@)
        } else {
            2
        },
{
    let mut count: usize = 0;
    let mut i: usize = 0;
    while i < cs.len()
        invariant
            0 <= i <= cs@.len(),
            count as nat == if count_named(cs@.take(i as int), n@) < 2 {
                count_named(cs@.take(i as int), n@)
            } else {
                2
            },
        decreases cs@.len() - i,
    {
        proof {
            assert(cs@.take(i + 1).drop_last() =~= cs@.take(i as int));
        }
        if cs[i].name == *n && count < 2 {
            count = count + 1;
        }
        i = i + 1;
    }
    proof {
        assert(cs@.take(i as int) =~= cs@);
    }
    count
}

/// Checks that the container the certificate volume goes into can be told
/// apart: `container_name`, when given, must name exactly one container of
/// `pod_spec`; when it is absent, `pod_spec` must hold exactly one container.
pub fn validate_container_name(container_name: &Option<String>, pod_spec: &Option<PodSpec>) -> (r:
    Result<(), Error>)
    ensures
        unit_result_view(r) == container_check(opt_view(*container_name), spec_containers(*pod_spec)),
{
    let empty: Vec<Container> = Vec::new();
    let containers: &Vec<Container> = match pod_spec {
        Some(p) => &p.containers,
        None => &empty,
    };
    proof {
        assert(containers@ == spec_containers(*pod_spec));
    }
    match container_name {
        Some(n) => {
            if count_up_to_two(containers, n) == 1 {
                Ok(())
            } else {
                let mut text = String::from_str("Container name ");
                text.append(n.as_str());
                text.append(" not found in PodSpec");
                Err(Error::UnableToCreateObject(text))
            }
        },
        None => {
            if containers.len() == 0 {
                Err(Error::UnableToCreateObject(String::from_str("No Containers Specified in PodSpec")))
            } else if containers.len() == 1 {
                Ok(())
            } else {
                Err(
                    Error::UnableToCreateObject(
                        String::from_str(
                            "Too many containers in PodSpec, specify ContainerName in WebhookHelper Spec",
                        ),
                    ),
                )
            }
        },
    }
}

} // verus!
