# weact-h743

Firmwares for the WeAct Studio MiniSTM32H7xx board (STM32H743VIT6), whose
decisions are proved with Verus: two clocks on the onboard 0.96" panel, one that
runs as tasks and one that runs on interrupts, and a live viewfinder for an
OV2640 camera.

## Layout

`src/` is the library. It does no I/O: it takes plain values and gives plain
values back.

| Module       | What it holds                                                      |
|--------------|--------------------------------------------------------------------|
| `window`     | The window of the sensor and the divider for an output size        |
| `registers`  | Registers of the OV2640, and the recipes that are written to them  |
| `ov2640`     | The driver of the sensor, request by request                       |
| `session`    | What a whole operation of the driver asks for, and how it ends     |
| `sensor`     | What the requests leave in the registers of the sensor             |
| `camera`     | The four operations that bring the camera up                       |
| `pipeline`   | The two frame buffers, the frame rate, the heartbeat               |
| `display`    | The camera frame on the panel, its bring-up, messages              |
| `board`      | The clock tree                                                     |
| `mode`       | The LED modes                                                      |
| `datetime`   | Dates and times, checked by `chrono` and by the HAL                |
| `format`     | Times and dates as text                                            |
| `face`       | The clock face, of which only what has changed is drawn again      |
| `clock`      | What the tasks of the clock decide                                 |
| `bare_metal` | What the interrupts of the clock decide                            |

`app/` is the firmware around it: pins, buses, the executor, the interrupts. It
carries out what the library says and hands back what became of it.

`tests/` runs the library on the host.

## What is taken on trust

Three functions of other crates are called from the library, each with a contract
that is stated and not proved: `core::str::from_utf8` (in `format`), the
constructors of `chrono`'s `NaiveDateTime`, and
`embassy_stm32::rtc::DateTime::from` (both in `datetime`).
