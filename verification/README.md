# testdata-gen

Commands that generate test data on a development environment of the BTC parachain: they set
exchange rates and fees, register vaults, and request and execute issues, redeems and replaces.

The library in `src/` decides what a command does, and Verus proves that it does so. It performs no
input or output: `flow::start` gives the first action of a command, and `flow::resume` the next one
for each reply. The program in `app/` performs the actions with the clients of the parachain and of
Bitcoin Core.

| Module       | What it holds                                                        |
|--------------|----------------------------------------------------------------------|
| `command`    | the commands and their options                                       |
| `flow`       | the actions, the replies, and which action follows on which reply    |
| `run`        | what a run does as a whole, and the laws of every run                |
| `collateral` | exchange rates and the griefing collateral of an issue request       |
| `payment`    | what a Bitcoin payment is made for                                   |
| `fixed`      | fixed-point numbers, computed by `sp-arithmetic`                     |
| `account`    | accounts and identifiers; development accounts come from `sp-keyring`|
| `codes`      | status and error codes, read from text                               |
| `text`       | the lines that are printed                                           |
| `error`      | why a command is refused, or a run fails                             |
