# sensor_net

A temperature/humidity sensor network: DHT20 sensors on ESP32 nodes send
readings over ESP-NOW to an ESP32 gateway, which forwards them over UART to a
Raspberry Pi that publishes them to MQTT.

- `src/` — the verified library (Verus): shared message types, the DHT20 read
  conversation as a state machine and the decoding of its measurement, the
  length-prefixed UART framing with its decoder, the ESP-NOW decisions, and
  the MQTT topic of each station.
- `app/` — the Raspberry Pi gateway program, the serde forms of the messages,
  and the async drivers (I2C sensor, UART writer) that perform what the
  library decides.
- `tests/` — tests of the library.
