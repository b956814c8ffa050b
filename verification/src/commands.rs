//! The argument vectors handed to the container runtime, one function for
//! each invocation.

use vstd::prelude::*;
use vstd::string::*;
use crate::text::{decimal, push_decimal, texts};

verus! {

/// The name of the container runtime's executable.
pub const DOCKER: &'static str = "docker";

/// The arguments that list the ids of the running containers.
pub open spec fn list_command() -> Seq<Seq<char>> {
    seq!["ps"@, "-q"@]
}

/// The arguments that force the removal of the containers `ids`.
pub open spec fn remove_command(ids: Seq<Seq<char>>) -> Seq<Seq<char>> {
    seq!["rm"@, "-f"@] + ids
}

/// The arguments that list the ids of the containers of the compose project
/// `stack`.
pub open spec fn stack_command(stack: Seq<char>) -> Seq<Seq<char>> {
    seq!["ps"@, "-q"@, "--filter"@, "label=com.docker.compose.project="@ + stack]
}

/// The arguments that ask for the name of the container `container_id`.
pub open spec fn inspect_name_command(container_id: Seq<char>) -> Seq<Seq<char>> {
    seq!["inspect"@, "--format"@, "{{.Name}}"@, container_id]
}

/// The arguments that ask for the image of the container `container_name`.
pub open spec fn inspect_image_command(container_name: Seq<char>) -> Seq<Seq<char>> {
    seq!["inspect"@, "--format"@, "{{.Config.Image}}"@, container_name]
}

/// The arguments that pull the image `image_name`.
pub open spec fn pull_command(image_name: Seq<char>) -> Seq<Seq<char>> {
    seq!["pull"@, image_name]
}

/// The arguments that print the last `tail` log lines of the container
/// `name` and then follow its log.
pub open spec fn logs_command(name: Seq<char>, tail: u32) -> Seq<Seq<char>> {
    seq!["logs"@, name, "--tail"@, decimal(tail as nat), "--follow"@]
}

/// Adds a copy of `arg` at the end of `args`.
fn push_arg(args: &mut Vec<String>, arg: &str)
    ensures
        texts(final(args)@) == texts(old(args)@).push(arg@),
{
    let owned = String::from_str(arg);
    args.push(owned);
    assert(texts(args@) =~= texts(old(args)@).push(arg@));
}

/// Arguments of `ps -q`.
pub fn list_args() -> (args: Vec<String>)
    ensures
        texts(args@) == list_command(),
{
    let mut args: Vec<String> = Vec::new();
    assert(texts(args@) =~= Seq::<Seq<char>>::empty());
    push_arg(&mut args, "ps");
    push_arg(&mut args, "-q");
    assert(texts(args@) =~= list_command());
    args
}

/// Arguments of `rm -f <ids...>`.
pub fn remove_args(container_ids: &Vec<String>) -> (args: Vec<String>)
    ensures
        texts(args@) == remove_command(texts(container_ids@)),
{
    let mut args: Vec<String> = Vec::new();
    assert(texts(args@) =~= Seq::<Seq<char>>::empty());
    push_arg(&mut args, "rm");
    push_arg(&mut args, "-f");
    let n = container_ids.len();
    let mut i: usize = 0;
    while i < n
        invariant
            n == container_ids@.len(),
            i <= n,
            texts(args@) == seq!["rm"@, "-f"@] + texts(container_ids@).take(i as int),
        decreases n - i,
    {
        push_arg(&mut args, container_ids[i].as_str());
        assert(texts(container_ids@).take(i + 1) =~= texts(container_ids@).take(i as int).push(
            container_ids@[i as int]@,
        ));
        i += 1;
    }
    assert(texts(container_ids@).take(n as int) =~= texts(container_ids@));
    args
}

/// Arguments of `ps -q --filter label=com.docker.compose.project=<stack>`.
pub fn stack_args(stack: &str) -> (args: Vec<String>)
    ensures
        texts(args@) == stack_command(stack@),
{
    let mut args: Vec<String> = Vec::new();
    assert(texts(args@) =~= Seq::<Seq<char>>::empty());
    push_arg(&mut args, "ps");
    push_arg(&mut args, "-q");
    push_arg(&mut args, "--filter");
    let mut filter = String::from_str("label=com.docker.compose.project=");
    filter.append(stack);
    push_arg(&mut args, filter.as_str());
    assert(texts(args@) =~= stack_command(stack@));
    args
}

/// Arguments of `inspect --format {{.Name}} <container_id>`.
pub fn inspect_name_args(container_id: &str) -> (args: Vec<String>)
    ensures
        texts(args@) == inspect_name_command(container_id@),
{
    let mut args: Vec<String> = Vec::new();
    assert(texts(args@) =~= Seq::<Seq<char>>::empty());
    push_arg(&mut args, "inspect");
    push_arg(&mut args, "--format");
    push_arg(&mut args, "{{.Name}}");
    push_arg(&mut args, container_id);
    assert(texts(args@) =~= inspect_name_command(container_id@));
    args
}

/// Arguments of `inspect --format {{.Config.Image}} <container_name>`.
pub fn inspect_image_args(container_name: &str) -> (args: Vec<String>)
    ensures
        texts(args@) == inspect_image_command(container_name@),
{
    let mut args: Vec<String> = Vec::new();
    assert(texts(args@) =~= Seq::<Seq<char>>::empty());
    push_arg(&mut args, "inspect");
    push_arg(&mut args, "--format");
    push_arg(&mut args, "{{.Config.Image}}");
    push_arg(&mut args, container_name);
    assert(texts(args@) =~= inspect_image_command(container_name@));
    args
}

/// Arguments of `pull <image_name>`.
pub fn pull_args(image_name: &str) -> (args: Vec<String>)
    ensures
        texts(args@) == pull_command(image_name@),
{
    let mut args: Vec<String> = Vec::new();
    assert(texts(args@) =~= Seq::<Seq<char>>::empty());
    push_arg(&mut args, "pull");
    push_arg(&mut args, image_name);
    assert(texts(args@) =~= pull_command(image_name@));
    args
}

/// Arguments of `logs <name> --tail <tail> --follow`.
pub fn logs_args(name: &str, tail: u32) -> (args: Vec<String>)
    ensures
        texts(args@) == logs_command(name@, tail),
{
    let mut args: Vec<String> = Vec::new();
    assert(texts(args@) =~= Seq::<Seq<char>>::empty());
    push_arg(&mut args, "logs");
    push_arg(&mut args, name);
    push_arg(&mut args, "--tail");
    let mut count = String::new();
    push_decimal(&mut count, tail as u64);
    assert(count@ =~= decimal(tail as nat));
    push_arg(&mut args, count.as_str());
    push_arg(&mut args, "--follow");
    assert(texts(args@) =~= logs_command(name@, tail));
    args
}

} // verus!
