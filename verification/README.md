# croutond

The daemon keeps a pool of warm hypervisor processes and runs virtual machines in them. Clients
create, list, control and delete machines over HTTP; each machine takes one slot of the pool.

`src/` is the verified library. It decides; it never touches the system. Operations that talk to
processes, sockets or the clock are written as steps: the library says what is to be done next, the
caller does it and hands the result back.

| module | what it holds |
| --- | --- |
| `pool`, `process_pool` | slots, the size of the pool, the search for a slot |
| `slot_supervisor` | the worker of one slot |
| `service`, `service_laws` | creating, deleting and asking machines, and what holds of that |
| `api`, `error` | requests of clients, and how failures are answered |
| `vm_validation`, `vm_payload`, `json` | boot requests and what is sent to a hypervisor |
| `ch_client`, `net_tap` | HTTP requests over sockets, tap devices |
| `host_metrics`, `vm_metrics`, `proc_text` | what the kernel reports |
| `settings`, `clock`, `demo_vm` | start-up settings, time stamps, a stand-in for a hypervisor |
| `text`, `numbers`, `paths`, `io_error` | text, numbers, paths and failures |

Public proof functions named `law_…` state what holds of all inputs.

`app/` is the program around the library: the HTTP server, processes, sockets, devices and files.
Started under the name `demo-vm` it is the stand-in.
