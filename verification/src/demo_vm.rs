//! A stand-in for a hypervisor: it takes the same socket argument and answers every request alike.
use vstd::prelude::*;
use vstd::utf8::encode_utf8;

use crate::numbers::{decimal, push_decimal};
use crate::process_pool::{byte_lists, launch, socket_path};

verus! {

/// The socket that arguments name: what follows the first `--api-socket`.
pub open spec fn api_socket(args: Seq<Seq<u8>>) -> Result<Seq<u8>, Seq<char>>
    decreases args.len(),
{
    if args.len() == 0 {
        Err("missing required argument --api-socket <PATH>"@)
    } else if args[0] == encode_utf8("--api-socket"@) {
        if args.len() > 1 {
            Ok(args[1])
        } else {
            Err("missing value for --api-socket"@)
        }
    } else {
        api_socket(args.skip(1))
    }
}

/// The arguments that follow the name of the program.
pub open spec fn after_program(args: Seq<Seq<u8>>) -> Seq<Seq<u8>> {
    if args.len() > 0 {
        args.skip(1)
    } else {
        args
    }
}

fn same_bytes(a: &Vec<u8>, b: &Vec<u8>) -> (r: bool)
    ensures
        r == (a@ == b@),
{
    if a.len() != b.len() {
        return false;
    }
    let mut i: usize = 0;
    while i < a.len()
        invariant
            i <= a@.len(),
            a@.len() == b@.len(),
            forall|j: int| 0 <= j < i ==> a@[j] == b@[j],
        decreases a@.len() - i,
    {
        if a[i] != b[i] {
            assert(a@[i as int] != b@[i as int]);
            return false;
        }
        i += 1;
    }
    assert(a@ =~= b@);
    true
}

/// Finds the socket that the arguments of the program name. The first argument is the program.
pub fn parse_api_socket(args: &Vec<Vec<u8>>) -> (r: Result<Vec<u8>, String>)
    ensures
        match r {
            Ok(path) => api_socket(after_program(byte_lists(args@))) == Ok::<Seq<u8>, Seq<char>>(
                path@,
            ),
            Err(e) => api_socket(after_program(byte_lists(args@))) == Err::<Seq<u8>, Seq<char>>(e@),
        },
{
    let flag = "--api-socket".as_bytes_vec();
    let ghost all = byte_lists(args@);
    let mut i: usize = 1;
    proof {
        if args@.len() == 0 {
            assert(after_program(all) =~= Seq::empty());
        }
    }
    while i < args.len()
        invariant
            1 <= i,
            args@.len() > 0 ==> i <= args@.len(),
            all == byte_lists(args@),
            flag@ == encode_utf8("--api-socket"@),
            args@.len() > 0 ==> api_socket(after_program(all)) == api_socket(all.skip(i as int)),
            args@.len() == 0 ==> after_program(all).len() == 0,
        decreases args@.len() - i,
    {
        proof {
            assert(all.skip(i as int)[0] == args@[i as int]@);
            assert(all.skip(i as int).skip(1) =~= all.skip(i + 1));
        }
        if same_bytes(&args[i], &flag) {
            if i + 1 < args.len() {
                let path = args[i + 1].clone();
                proof {
                    assert(all.skip(i as int)[1] == args@[i + 1]@);
                    assert(path@ =~= args@[i + 1]@);
                }
                return Ok(path);
            }
            return Err("missing value for --api-socket".to_owned());
        }
        i += 1;
    }
    Err("missing required argument --api-socket <PATH>".to_owned())
}

/// The body of every answer.
pub open spec fn demo_body(slot: Seq<char>) -> Seq<char> {
    "{\"status\":\"ok\",\"vm\":\"demo-vm\",\"slot\":\""@ + slot + "\"}"@
}

/// Every answer: the head, with the length of the body in bytes, and the body.
pub open spec fn demo_response(slot: Seq<char>) -> Seq<char> {
    "HTTP/1.1 200 OK\r\ncontent-type: application/json\r\ncontent-length: "@ + decimal(
        encode_utf8(demo_body(slot)).len(),
    ) + "\r\nconnection: close\r\n\r\n"@ + demo_body(slot)
}

/// Writes the answer to a request.
pub fn handle_connection(slot: &str) -> (r: String)
    ensures
        r@ == demo_response(slot@),
{
    let mut body = "{\"status\":\"ok\",\"vm\":\"demo-vm\",\"slot\":\"".to_owned();
    body.append(slot);
    body.append("\"}");
    let length: usize = body.as_str().as_bytes_vec().len();
    let mut response =
        "HTTP/1.1 200 OK\r\ncontent-type: application/json\r\ncontent-length: ".to_owned();
    push_decimal(&mut response, length as u64);
    response.append("\r\nconnection: close\r\n\r\n");
    response.append(body.as_str());
    response
}

proof fn lemma_flag_is_found(args: Seq<Seq<u8>>, path: Seq<u8>)
    requires
        !args.contains(encode_utf8("--api-socket"@)),
    ensures
        api_socket(args.push(encode_utf8("--api-socket"@)).push(path)) == Ok::<Seq<u8>, Seq<char>>(
            path,
        ),
    decreases args.len(),
{
    let flag = encode_utf8("--api-socket"@);
    let whole = args.push(flag).push(path);
    if args.len() == 0 {
        assert(whole[0] == flag);
        assert(whole[1] == path);
    } else {
        let rest = args.skip(1);
        assert(args.contains(args[0]));
        assert(!rest.contains(flag)) by {
            if rest.contains(flag) {
                let i = choose|i: int| 0 <= i < rest.len() && rest[i] == flag;
                assert(args[i + 1] == flag);
            }
        }
        lemma_flag_is_found(rest, path);
        assert(whole.skip(1) =~= rest.push(flag).push(path));
        assert(whole[0] == args[0]);
    }
}

/// A stand-in that is started as the worker of a slot starts its hypervisor listens on the socket of
/// that slot, unless the common arguments name another socket.
pub proof fn law_stand_in_finds_its_socket(
    slot: usize,
    program: Seq<char>,
    args: Seq<Seq<u8>>,
    bridge: Option<String>,
    vm_path: Seq<u8>,
    program_name: Seq<u8>,
)
    requires
        !args.contains(encode_utf8("--api-socket"@)),
    ensures
        api_socket(
            after_program(
                seq![program_name] + launch(slot, program, args, bridge, vm_path).args,
            ),
        ) == Ok::<Seq<u8>, Seq<char>>(socket_path(vm_path, slot)),
{
    let given = launch(slot, program, args, bridge, vm_path).args;
    lemma_flag_is_found(args, socket_path(vm_path, slot));
    assert((seq![program_name] + given).skip(1) =~= given);
}

} // verus!
