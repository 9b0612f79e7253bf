# e1000_ich8lan

The part of an Intel e1000 Ethernet driver that is particular to the ICH8 to
Cannon Point families: flash and NVM access, PHY configuration and its
workarounds, ultra low power and K1 handling, energy efficient Ethernet,
latency tolerance reporting, receive addresses, the multicast table, LEDs, link
supervision, reset and initialization. It is written and verified in Verus.

## How it works

The library performs no I/O. Each driver function works on an `Adapter`: the
software state (`Hw`) together with the answers that the device and the rest of
the driver have given so far. It records the operations it asks for, in order.
Where it needs an answer that is not there yet it stalls; its caller performs
what was recorded, appends the answer, and calls the function again on the same
software state. A function that ends without a stall has done its work.

The model of an adapter is a `Run`. The contract of every driver function says
that the final run and the result are those of a spec function on the initial
run, so it fixes every register access, every delay, every call into the rest
of the driver, their order, the software state afterwards, and each error.

## Layout

| Module | Contents |
| --- | --- |
| `hw`, `error`, `consts` | software state and its invariant, errors and their texts, registers |
| `io` | operations, answers, runs, the adapter |
| `resume`, `resumption` | each function only adds to a run, and resumes when more answers come |
| `keeping` | what the called functions leave alone |
| `flash`, `nvm` | the flash controller, NVM banks, words, checksum bit |
| `swflag` | the flag shared with firmware and hardware, reset block, configuration waits |
| `emi`, `phy_access`, `phy_config`, `lanphypc`, `ulp`, `jumbo` | the PHY |
| `link`, `link_info`, `eee`, `k1`, `ltr` | the link and what depends on its speed |
| `rar`, `mcast`, `counters`, `led`, `setup`, `reset`, `params`, `power` | the MAC |

Proof functions named `law_...` state what holds across functions.

`app/` runs the library on a platform: it performs the recorded operations and
finds the functions that the tables of operations refer to. `tests/` runs it on
a simulated device.
