# msp_fw

Firmware logic for the bob-929 MSP430 supervisor board, written in Verus: a power-on self-test
image (`diag`) and the Stembus product image (`prod`), with a shared library of sensor drivers
(`devices`), a cooperative scheduler (`sched`) and console formatting (`uart`).

- `src/` is the verified library: the eUSCI_B master's transfer engine (bounded waits, NACK
  handling), the I²C-slave register file and its per-event state machine, sensor-bus enumeration
  and the debug window, the operating-mode machine and its bus hand-offs, model detection, the
  sensor conversions (CRC-8, humidity/temperature, acceleration magnitude, magnetometer), the
  VL53L0X bring-up and range-read register scripts with the machine that walks them, the range
  tracker and reference-SPAD selection, the self-test verdicts (including the accelerometer's
  wake poll), the stress sweep and soak steps, the task decisions of the diagnostic image, and
  the lines the consoles and displays show.
- `app/` drives the hardware through the FR2476 peripheral-access crate and the embedded-hal /
  ssd1306 / embedded-graphics crates, performs the bus operations and register accesses the
  library asks for, and feeds it with what they return. Through the embedded-hal `I2c` trait it
  also runs the drivers' short bounded polls (the APDS-9960 proximity sample, the MC6470 wake and
  magnetometer data-ready polls, the Si7021 no-hold conversion), whose per-read decisions and
  limits are the library's, and the read loops of the stress tasks, which hand the outcomes to
  the library (a soak batch is counted by one library call).
- `tests/` exercises the library on concrete values.
