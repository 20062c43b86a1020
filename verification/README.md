# turismo_core

Reglas de negocio de la operación de files turísticos (agencias, hoteles,
tours, guías, vehículos, restaurantes), verificadas con Verus.

- `src/`: la biblioteca verificada. Cada módulo decide una parte del negocio
  sobre valores simples (montos en céntimos, fechas, estados como texto) y
  devuelve planes que dicen qué escribir: estados y cascadas, registro y
  verificación de pagos, saldos a favor (cancelaciones y no-shows), edición y
  confirmación de files, notas, precios y avisos. Las leyes que relacionan
  varias funciones están en funciones de prueba públicas cuyo nombre empieza
  por `ley_`.
- `tests/`: pruebas sobre valores concretos.
- `app/`: servicios asíncronos que leen y escriben en los repositorios,
  convierten montos decimales a céntimos y arman el JSON de las notas.
